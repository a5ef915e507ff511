use musicplayer::playlist::PlaylistManager;

#[test]
fn test_add_items() {
    let mut manager = PlaylistManager::new();
    assert_eq!(manager.playlist.len(), 0);

    manager.add_item("file1.mp3".to_string());
    assert_eq!(manager.playlist.len(), 1);
    assert_eq!(manager.current_index, Some(0));

    manager.add_item("file2.mp3".to_string());
    assert_eq!(manager.playlist.len(), 2);
    assert_eq!(manager.current_index, Some(0)); // Current index should stay on first item
}

#[test]
fn test_remove_items() {
    let mut manager = PlaylistManager::new();

    // Add three items
    manager.add_item("file1.mp3".to_string());
    manager.add_item("file2.mp3".to_string());
    manager.add_item("file3.mp3".to_string());

    // Remove middle item
    assert!(manager.remove_item(1));
    assert_eq!(manager.playlist.len(), 2);
    assert_eq!(manager.current_index, Some(0)); // Current index unchanged
    assert_eq!(manager.current_item().unwrap(), "file1.mp3");

    // Remove first item (current)
    assert!(manager.remove_item(0));
    assert_eq!(manager.playlist.len(), 1);
    assert_eq!(manager.current_index, Some(0)); // Current index now points to the next item
    assert_eq!(manager.current_item().unwrap(), "file3.mp3");

    // Remove last item
    assert!(manager.remove_item(0));
    assert_eq!(manager.playlist.len(), 0);
    assert_eq!(manager.current_index, None); // No current index with empty playlist
    assert_eq!(manager.current_item(), None);

    // Try to remove from empty playlist
    assert!(!manager.remove_item(0));
}

#[test]
fn test_move_items() {
    let mut manager = PlaylistManager::new();

    manager.add_item("file1.mp3".to_string());
    manager.add_item("file2.mp3".to_string());
    manager.add_item("file3.mp3".to_string());

    // Can't move first item up
    assert!(!manager.move_up(0));

    // Can't move last item down
    assert!(!manager.move_down(2));

    // Move middle item up
    assert!(manager.move_up(1));
    assert_eq!(manager.playlist[0], "file2.mp3");
    assert_eq!(manager.playlist[1], "file1.mp3");

    // Move last item up
    assert!(manager.move_up(2));
    assert_eq!(manager.playlist[1], "file3.mp3");
    assert_eq!(manager.playlist[2], "file1.mp3");

    // Move first item down
    assert!(manager.move_down(0));
    assert_eq!(manager.playlist[0], "file3.mp3");
    assert_eq!(manager.playlist[1], "file2.mp3");
}

#[test]
fn test_navigation() {
    let mut manager = PlaylistManager::new();

    // Test with empty playlist
    assert_eq!(manager.next_item(), None);

    // Add some items
    manager.add_item("file1.mp3".to_string());
    manager.add_item("file2.mp3".to_string());
    manager.add_item("file3.mp3".to_string());

    // Test current item
    assert_eq!(manager.current_item().unwrap(), "file1.mp3");

    // Test next item
    assert_eq!(manager.next_item().unwrap(), "file2.mp3");
    assert_eq!(manager.current_index, Some(1));

    // Test next item again
    assert_eq!(manager.next_item().unwrap(), "file3.mp3");
    assert_eq!(manager.current_index, Some(2));

    // Test end of playlist
    assert_eq!(manager.next_item(), None);
    assert_eq!(manager.current_index, None);
}
