use paper_plane::selection::{ChatFolderSelection, INVALID_POSITION};

fn with_items(items: Vec<u64>) -> ChatFolderSelection {
    let mut s = ChatFolderSelection::new();
    let change = s.set_model(Some(items.clone()));
    assert_eq!((change.position, change.removed, change.added), (0, 0, items.len() as u32));
    s
}

#[test]
fn find_item_position_looks_in_range() {
    let s = with_items(vec![10, 20, 30, 20]);
    assert_eq!(s.find_item_position(20, 0, 4), 1);
    assert_eq!(s.find_item_position(20, 2, 4), 3);
    assert_eq!(s.find_item_position(40, 0, 4), INVALID_POSITION);
    assert_eq!(s.find_item_position(10, 1, 4), INVALID_POSITION);
    assert_eq!(s.find_item_position(10, 3, 1), INVALID_POSITION);
    assert_eq!(ChatFolderSelection::new().find_item_position(10, 0, 4), INVALID_POSITION);
}

#[test]
fn select_by_chat_list_and_by_position() {
    let mut s = with_items(vec![10, 20, 30]);
    let change = s.set_selected_chat_list(Some(30)).unwrap();
    assert_eq!((change.position, change.n_items), (2, 1));
    assert_eq!(s.item_position, 2);
    assert!(s.is_selected(2));
    assert_eq!(s.selection_in_range(), vec![2]);
    let change = s.select_item(0).unwrap();
    assert_eq!((change.position, change.n_items), (0, 3));
    assert_eq!(s.selected, Some(10));
    let change = s.select_item(1).unwrap();
    assert_eq!((change.position, change.n_items), (0, 2));
    let change = s.set_selected_chat_list(None).unwrap();
    assert_eq!((change.position, change.n_items), (1, 1));
    assert_eq!(s.item_position, INVALID_POSITION);
    assert!(s.selection_in_range().is_empty());
    assert!(s.set_selected_chat_list(Some(99)).is_none());
    assert_eq!(s.selected, Some(99));
}

#[test]
fn selection_follows_items_changes() {
    let mut s = with_items(vec![10, 20, 30, 40]);
    s.set_selected_chat_list(Some(30));
    // An insertion before the selection moves it.
    let c = s.items_changed(0, 0, vec![5, 6]);
    assert_eq!((c.position, c.removed, c.added), (0, 0, 2));
    assert_eq!(s.items, Some(vec![5, 6, 10, 20, 30, 40]));
    assert_eq!(s.item_position, 4);
    // A change after the selection leaves it.
    s.items_changed(5, 1, vec![]);
    assert_eq!(s.item_position, 4);
    // The selected item moves within a replaced range.
    s.items_changed(3, 2, vec![30, 20]);
    assert_eq!(s.items, Some(vec![5, 6, 10, 30, 20]));
    assert_eq!(s.item_position, 3);
    assert_eq!(s.selected, Some(30));
    // The selected item goes away.
    s.items_changed(3, 1, vec![]);
    assert_eq!(s.item_position, INVALID_POSITION);
    assert_eq!(s.selected, None);
}

#[test]
fn missing_selection_is_found_when_added() {
    let mut s = with_items(vec![10]);
    s.set_selected_chat_list(Some(77));
    assert_eq!(s.item_position, INVALID_POSITION);
    s.items_changed(1, 0, vec![77]);
    assert_eq!(s.item_position, 1);
    assert_eq!(s.item(1), Some(77));
    assert_eq!(s.item(2), None);
    assert_eq!(s.n_items(), 2);
}
