use musicplayer::config::get_config_location_description;
use musicplayer::player::{MusicPlayer, OpenOutcome, PlayerError};
use musicplayer::playlist::PlaylistManager;
use musicplayer::timefmt::format_duration;
use musicplayer::utils::{get_supported_extensions, is_audio_file};

#[test]
fn test_remove_current_non_tail_advances() {
    // Removing the current element (not the last one) leaves the current
    // index naming what was the following track.
    let mut manager = PlaylistManager::new();
    manager.add_item("a.mp3".to_string());
    manager.add_item("b.mp3".to_string());
    manager.add_item("c.mp3".to_string());
    assert!(manager.set_current(Some(1)));

    assert!(manager.remove_item(1));
    assert_eq!(manager.current_index, Some(1));
    assert_eq!(manager.current_item().unwrap(), "c.mp3");
}

#[test]
fn test_remove_before_current() {
    // Playlist [A, B, C] with current index 1 (B): removing A moves the
    // current index to 0 and the current item is still B.
    let mut manager = PlaylistManager::new();
    manager.add_item("A".to_string());
    manager.add_item("B".to_string());
    manager.add_item("C".to_string());
    assert!(manager.set_current(Some(1)));

    assert!(manager.remove_item(0));
    assert_eq!(manager.current_index, Some(0));
    assert_eq!(manager.current_item().unwrap(), "B");
    assert_eq!(manager.playlist, vec!["B".to_string(), "C".to_string()]);
}

#[test]
fn test_remove_only_item_unsets() {
    // Playlist [A] with current index 0: removing it unsets the index.
    let mut manager = PlaylistManager::new();
    manager.add_item("A".to_string());
    assert_eq!(manager.current_index, Some(0));

    assert!(manager.remove_item(0));
    assert_eq!(manager.current_index, None);
    assert_eq!(manager.current_item(), None);
}

#[test]
fn test_move_boundary_leaves_everything_unchanged() {
    let mut manager = PlaylistManager::new();
    manager.add_item("a".to_string());
    manager.add_item("b".to_string());
    manager.add_item("c".to_string());
    assert!(manager.set_current(Some(1)));
    assert!(manager.set_selected(Some(2)));

    assert!(!manager.move_up(0));
    assert_eq!(manager.playlist, vec!["a".to_string(), "b".to_string(), "c".to_string()]);
    assert_eq!(manager.current_index, Some(1));
    assert_eq!(manager.selected_index, Some(2));

    assert!(!manager.move_down(2));
    assert_eq!(manager.playlist, vec!["a".to_string(), "b".to_string(), "c".to_string()]);
    assert_eq!(manager.current_index, Some(1));
    assert_eq!(manager.selected_index, Some(2));

    assert!(!manager.move_up(7));
    assert!(!manager.move_down(7));
    assert_eq!(manager.playlist.len(), 3);
}

#[test]
fn test_move_tracks_current_and_selected() {
    let mut manager = PlaylistManager::new();
    manager.add_item("a".to_string());
    manager.add_item("b".to_string());
    manager.add_item("c".to_string());
    assert!(manager.set_current(Some(1)));
    assert!(manager.set_selected(Some(1)));

    // Moving the current item up carries both pointers with it.
    assert!(manager.move_up(1));
    assert_eq!(manager.playlist, vec!["b".to_string(), "a".to_string(), "c".to_string()]);
    assert_eq!(manager.current_index, Some(0));
    assert_eq!(manager.selected_index, Some(0));

    // Moving the neighbour down swaps it with the current item.
    assert!(manager.move_down(0));
    assert_eq!(manager.playlist, vec!["a".to_string(), "b".to_string(), "c".to_string()]);
    assert_eq!(manager.current_index, Some(1));
    assert_eq!(manager.selected_index, Some(1));
}

#[test]
fn test_sequential_advance_visits_all_then_none() {
    let mut manager = PlaylistManager::new();
    manager.append("x".to_string());
    manager.append("y".to_string());
    manager.append("z".to_string());
    assert_eq!(manager.current_index, None);

    assert_eq!(manager.next_item().unwrap(), "x");
    assert_eq!(manager.next_item().unwrap(), "y");
    assert_eq!(manager.next_item().unwrap(), "z");
    assert_eq!(manager.next_item(), None);
    assert_eq!(manager.current_index, None);
}

#[test]
fn test_shuffle_two_alternates() {
    // On a two-element playlist the shuffled index is never the previous
    // current index, over many trials.
    let mut manager = PlaylistManager::new();
    manager.add_item("left.mp3".to_string());
    manager.add_item("right.mp3".to_string());
    let mut prev = manager.current_index.unwrap();
    for _ in 0..1000 {
        let item = manager.next_item_shuffle();
        assert!(item.is_some());
        let now = manager.current_index.unwrap();
        assert_ne!(now, prev);
        assert!(now < 2);
        prev = now;
    }
}

#[test]
fn test_shuffle_bounds_on_larger_playlist() {
    let mut manager = PlaylistManager::new();
    for i in 0..5 {
        manager.add_item(format!("t{}", i));
    }
    let mut prev = manager.current_index.unwrap();
    for _ in 0..500 {
        let item = manager.next_item_shuffle();
        assert!(item.is_some());
        let now = manager.current_index.unwrap();
        assert_ne!(now, prev);
        assert!(now < 5);
        assert_eq!(item.unwrap(), manager.playlist[now]);
        prev = now;
    }
}

#[test]
fn test_shuffle_single_and_empty() {
    let mut manager = PlaylistManager::new();
    assert_eq!(manager.next_item_shuffle(), None);
    assert_eq!(manager.current_index, None);

    manager.add_item("only.mp3".to_string());
    // A single track plays itself even in shuffle mode.
    assert_eq!(manager.next_item_shuffle().unwrap(), "only.mp3");
    assert_eq!(manager.current_index, Some(0));
    assert_eq!(manager.next_item_shuffle().unwrap(), "only.mp3");
}

#[test]
fn test_stop_overrides_any_prior_state() {
    // From Playing: stopped means not playing and finished, under any sink
    // observation.
    let mut player = MusicPlayer::new();
    player
        .play_file("a.ogg".to_string(), OpenOutcome::Opened(None), 0)
        .unwrap();
    player.stop();
    assert!(!player.is_playing(false));
    assert!(!player.is_playing(true));
    assert!(player.check_if_song_finished(false));

    // From Paused: the same.
    let mut player = MusicPlayer::new();
    player
        .play_file("a.ogg".to_string(), OpenOutcome::Opened(None), 0)
        .unwrap();
    player.pause();
    player.stop();
    assert!(!player.is_playing(false));
    assert!(!player.is_playing(true));
    assert!(player.check_if_song_finished(false));
}

#[test]
fn test_paused_position_does_not_drift() {
    let mut player = MusicPlayer::new();
    player
        .play_file("a.wav".to_string(), OpenOutcome::Opened(Some(10_000)), 0)
        .unwrap();
    assert_eq!(player.get_current_position(1500, false), 1500);
    player.pause();

    // Two queries inside the paused span return the identical value.
    let first = player.get_current_position(2500, false);
    let second = player.get_current_position(9000, false);
    assert_eq!(first, 1500);
    assert_eq!(second, 1500);

    // Resuming restarts accounting at the resume time: the paused span is
    // not counted.
    player.resume(9000);
    assert_eq!(player.get_current_position(9600, false), 2100);
}

#[test]
fn test_position_accounting_does_not_double_count() {
    let mut player = MusicPlayer::new();
    player
        .play_file("a.wav".to_string(), OpenOutcome::Opened(None), 1000)
        .unwrap();
    assert_eq!(player.get_current_position(1400, false), 400);
    assert_eq!(player.get_current_position(1400, false), 400);
    assert_eq!(player.get_current_position(1600, false), 600);
}

#[test]
fn test_seek_while_playing() {
    // Engine loaded with a 10-second track, seek to 4s while playing:
    // position reads 4s at once, still playing, not finished.
    let mut player = MusicPlayer::new();
    player
        .play_file("ten_seconds.wav".to_string(), OpenOutcome::Opened(Some(10_000)), 0)
        .unwrap();
    assert!(player.is_playing(false));

    player
        .seek_to(4000, OpenOutcome::Opened(Some(10_000)), 500)
        .unwrap();
    let pos = player.get_current_position(500, false);
    assert!(pos >= 4000);
    assert!(pos < 4100);
    assert!(player.is_playing(false));
    assert!(!player.check_if_song_finished(false));
    assert_eq!(player.get_song_duration(), Some(10_000));
}

#[test]
fn test_seek_preserves_pause() {
    let mut player = MusicPlayer::new();
    player
        .play_file("a.wav".to_string(), OpenOutcome::Opened(Some(10_000)), 0)
        .unwrap();
    player.pause();
    player
        .seek_to(2000, OpenOutcome::Opened(Some(10_000)), 100)
        .unwrap();
    // Paused before the seek: still paused after it, at the new position.
    assert!(!player.is_playing(false));
    assert_eq!(player.get_current_position(900, false), 2000);
}

#[test]
fn test_seek_with_nothing_loaded_fails() {
    let mut player = MusicPlayer::new();
    let r = player.seek_to(1000, OpenOutcome::Opened(None), 0);
    assert_eq!(r, Err(PlayerError::NoActiveTrack));
    assert_eq!(player.get_current_position(50, true), 0);
}

#[test]
fn test_failed_open_reports_and_unloads() {
    let mut player = MusicPlayer::new();
    let r = player.play_file("broken.mp3".to_string(), OpenOutcome::Failed, 0);
    assert_eq!(r, Err(PlayerError::OpenError));
    assert_eq!(player.get_current_file_path(), None);
    assert_eq!(player.get_song_duration(), None);
    assert!(!player.is_playing(true));
}

#[test]
fn test_failed_open_still_records_index() {
    let mut player = MusicPlayer::new();
    let r = player.play_playlist_item("broken.mp3".to_string(), 3, OpenOutcome::Failed, 0);
    assert_eq!(r, Err(PlayerError::OpenError));
    // The active index is recorded before the open outcome is examined.
    assert_eq!(player.get_current_song_index(), Some(3));
}

#[test]
fn test_failed_seek_reload_stops() {
    let mut player = MusicPlayer::new();
    player
        .play_file("a.wav".to_string(), OpenOutcome::Opened(None), 0)
        .unwrap();
    let r = player.seek_to(3000, OpenOutcome::Failed, 100);
    assert_eq!(r, Err(PlayerError::OpenError));
    // The position was recorded, the loaded track kept, playback stopped.
    assert_eq!(player.get_current_file_path(), Some("a.wav".to_string()));
    assert_eq!(player.get_current_position(200, true), 3000);
}

#[test]
fn test_finish_detection_is_sticky_and_cleared_by_play() {
    let mut player = MusicPlayer::new();
    player
        .play_file("a.wav".to_string(), OpenOutcome::Opened(None), 0)
        .unwrap();

    // An autonomous completion: the sink drained while playing.
    assert!(player.check_if_song_finished(true));
    // Sticky: later observations with queued audio still report finished.
    assert!(player.check_if_song_finished(false));
    assert!(!player.is_playing(false));

    // A successful play clears the flag.
    player
        .play_file("b.wav".to_string(), OpenOutcome::Opened(None), 50)
        .unwrap();
    assert!(!player.check_if_song_finished(false));
}

#[test]
fn test_volume_is_clamped() {
    let mut player = MusicPlayer::new();
    assert_eq!(player.get_volume(), 1000);
    player.set_volume(250);
    assert_eq!(player.get_volume(), 250);
    player.set_volume(5000);
    assert_eq!(player.get_volume(), 1000);
    player.set_volume(0);
    assert_eq!(player.get_volume(), 0);
}

#[test]
fn test_format_duration_values() {
    assert_eq!(format_duration(0), "00:00");
    assert_eq!(format_duration(5), "00:05");
    assert_eq!(format_duration(59), "00:59");
    assert_eq!(format_duration(60), "01:00");
    assert_eq!(format_duration(65), "01:05");
    assert_eq!(format_duration(600), "10:00");
    assert_eq!(format_duration(3600), "60:00");
    assert_eq!(format_duration(7265), "121:05");
}

#[test]
fn test_is_audio_file_cases() {
    assert!(is_audio_file("song.mp3"));
    assert!(is_audio_file("song.wav"));
    assert!(is_audio_file("song.ogg"));
    assert!(is_audio_file("song.flac"));
    assert!(is_audio_file("song.aac"));
    assert!(is_audio_file("song.m4a"));
    assert!(is_audio_file("song.opus"));
    assert!(is_audio_file("song.wma"));

    // Case-insensitive on ASCII letters.
    assert!(is_audio_file("SONG.MP3"));
    assert!(is_audio_file("Song.Flac"));

    // The extension belongs to the file name, not the directories.
    assert!(is_audio_file("/home/user/music/track.mp3"));
    assert!(is_audio_file("music.directory/track.wav"));
    assert!(!is_audio_file("music.mp3/track"));

    // The last dot decides.
    assert!(is_audio_file("archive.tar.mp3"));
    assert!(!is_audio_file("song.mp3.txt"));

    // No extension, hidden files, empty extension, empty path.
    assert!(!is_audio_file("no_extension"));
    assert!(!is_audio_file(".mp3"));
    assert!(!is_audio_file("dir/.mp3"));
    assert!(!is_audio_file("song."));
    assert!(!is_audio_file(""));
    assert!(!is_audio_file("song.txt"));
    assert!(!is_audio_file("song.mp4"));
}

#[test]
fn test_supported_extensions_list() {
    let exts = get_supported_extensions();
    assert_eq!(
        exts,
        vec!["mp3", "wav", "ogg", "flac", "aac", "m4a", "opus", "wma"]
    );
    for e in exts {
        assert!(is_audio_file(&format!("x.{}", e)));
    }
}

#[test]
fn test_config_location_description_wording() {
    assert_eq!(
        get_config_location_description(Some("/home/user/.config/musicplayer/config.toml")),
        "Configuration is stored at: /home/user/.config/musicplayer/config.toml"
    );
    assert_eq!(
        get_config_location_description(None),
        "Could not determine configuration location"
    );
}
