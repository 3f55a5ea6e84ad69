use paper_plane::widgets::description_row;
use paper_plane::widgets::{
    archive_chats_label, circular_progress_size, default_background_colors, file_status_icon,
    gradient_colors, group_link_row, is_snow_season, phone_number_row, restore_session,
    should_select_chat, username_row, FileStatus, SessionChoice, Snow,
};

#[test]
fn snow_season() {
    assert!(is_snow_season(12, 24));
    assert!(is_snow_season(12, 31));
    assert!(is_snow_season(1, 5));
    assert!(!is_snow_season(1, 6));
    assert!(!is_snow_season(12, 23));
    assert!(!is_snow_season(7, 1));
}

#[test]
fn snow_widget() {
    let mut snow = Snow::new(Some((12, 25)));
    assert!(snow.visible);
    assert!(snow.needs_shader());
    assert_eq!(snow.elapsed(10), None);
    snow.shader_ready(1_000, true);
    assert!(!snow.needs_shader());
    assert_eq!(snow.elapsed(3_000), Some(2_000));
    let mut broken = Snow::new(Some((1, 1)));
    broken.shader_ready(5, false);
    assert!(!broken.visible);
    assert_eq!(broken.elapsed(10), None);
    assert!(!Snow::new(None).visible);
    assert!(!Snow::new(Some((6, 1))).visible);
}

#[test]
fn progress_bar_size() {
    assert_eq!(circular_progress_size(40, 40), 40);
    assert_eq!(circular_progress_size(40, 20), 20);
    assert_eq!(circular_progress_size(8, 40), 16);
    assert_eq!(circular_progress_size(-1, -1), 16);
}

#[test]
fn file_icons() {
    assert_eq!(file_status_icon(FileStatus::Downloading(50)), "media-playback-stop-symbolic");
    assert_eq!(file_status_icon(FileStatus::Uploading(1)), "media-playback-stop-symbolic");
    assert_eq!(file_status_icon(FileStatus::CanBeDownloaded), "document-save-symbolic");
    assert_eq!(file_status_icon(FileStatus::Downloaded), "folder-documents-symbolic");
}

#[test]
fn backgrounds() {
    assert_eq!(
        gradient_colors(&vec![0x123456, 0xffffff, 0, -1]),
        vec![(0x12, 0x34, 0x56), (0xff, 0xff, 0xff), (0, 0, 0), (0xff, 0xff, 0xff)]
    );
    assert_eq!(default_background_colors(true), vec![0xd6932e, 0xbc40db, 0x4280d7, 0x614ed5]);
    assert_eq!(default_background_colors(false), vec![0x94dae9, 0x9aeddb, 0x94c3f6, 0xac96f7]);
}

#[test]
fn archive_label() {
    let names = |v: &[&str]| v.iter().map(|s| s.to_string()).collect::<Vec<String>>();
    assert_eq!(archive_chats_label(&names(&[])), "");
    assert_eq!(archive_chats_label(&names(&["Ann"])), "Ann");
    assert_eq!(archive_chats_label(&names(&["Ann", "Bob", "Cy"])), "Ann, Bob, Cy");
}

#[test]
fn info_rows() {
    assert_eq!(phone_number_row("15550100"), Some("+15550100".to_string()));
    assert_eq!(phone_number_row(""), None);
    assert_eq!(username_row("ann"), Some("@ann".to_string()));
    assert_eq!(username_row(""), None);
    assert_eq!(group_link_row("rustlang"), Some("https://t.me/rustlang".to_string()));
    assert_eq!(group_link_row(""), None);
}

#[test]
fn sessions() {
    let names = |v: &[&str]| v.iter().map(|s| s.to_string()).collect::<Vec<String>>();
    assert_eq!(restore_session(&names(&[]), "a"), SessionChoice::NewClient);
    assert_eq!(restore_session(&names(&["a", "b", "b"]), "b"), SessionChoice::Existing(1));
    assert_eq!(restore_session(&names(&["a", "b"]), "z"), SessionChoice::Existing(0));
    assert!(should_select_chat(Some(3), 3));
    assert!(!should_select_chat(Some(3), 4));
    assert!(!should_select_chat(None, 3));
}

#[test]
fn description_rows() {
    assert_eq!(description_row("A group"), Some("A group".to_string()));
    assert_eq!(description_row(""), None);
}
