use musicplayer::player::{MusicPlayer, OpenOutcome};

#[test]
fn test_mock_player_basic() {
    let mut player = MusicPlayer::new();

    // Initial state
    assert!(!player.is_playing(true));
    assert!(!player.check_if_song_finished(false));
    assert_eq!(player.get_current_song_index(), None);

    // Play a track
    player
        .play_playlist_item("/mock/track1.mp3".to_string(), 0, OpenOutcome::Opened(None), 0)
        .unwrap();

    // Check state after playing
    assert!(player.is_playing(false));
    assert!(!player.check_if_song_finished(false));
    assert_eq!(player.get_current_song_index(), Some(0));

    // Test pause/resume
    player.pause();
    assert!(!player.is_playing(false));

    player.resume(10);
    assert!(player.is_playing(false));

    // Test stopping
    player.stop();
    assert!(!player.is_playing(true));
    assert!(player.check_if_song_finished(true));
}

#[test]
fn test_mock_player_playlist() {
    let mut player = MusicPlayer::new();

    // Setup mock playlist
    let tracks = [
        "/mock/track1.mp3".to_string(),
        "/mock/track2.mp3".to_string(),
        "/mock/track3.mp3".to_string(),
    ];

    // Play first track
    player
        .play_playlist_item(tracks[0].clone(), 0, OpenOutcome::Opened(None), 0)
        .unwrap();
    assert_eq!(player.get_current_song_index(), Some(0));

    // Simulate track completion and move to next
    player.stop();
    assert!(player.check_if_song_finished(true));

    // Play next track
    player
        .play_playlist_item(tracks[1].clone(), 1, OpenOutcome::Opened(None), 10)
        .unwrap();
    assert_eq!(player.get_current_song_index(), Some(1));
    assert!(!player.check_if_song_finished(false));
}
