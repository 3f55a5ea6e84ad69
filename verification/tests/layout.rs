use paper_plane::layout::{chat_list_title, folder_menu_halign, ChatListTitle};
use paper_plane::layout::{
    bubble_for_size, bubble_measure, chat_list_icon_name, indicators_shape, label_measure,
    map_measure, map_width_measure, marker_measure, row_menu_halign, Align, FolderIcon,
    LicenseLabel, LicensePosition, Measurement, Orientation, Rect, ShapeAttribute,
};
use paper_plane::message::Direction;
use paper_plane::sidebar::ChatListType;

fn m(minimum: i32, natural: i32) -> Measurement {
    Measurement { minimum, natural, minimum_baseline: -1, natural_baseline: -1 }
}

#[test]
fn bubble_is_limited_in_width() {
    assert_eq!(bubble_for_size(Orientation::Vertical, 500), 400);
    assert_eq!(bubble_for_size(Orientation::Vertical, 300), 300);
    assert_eq!(bubble_for_size(Orientation::Horizontal, 500), 500);
    assert_eq!(bubble_measure(Orientation::Horizontal, m(450, 900)), m(400, 400));
    assert_eq!(bubble_measure(Orientation::Horizontal, m(100, 900)), m(100, 400));
    assert_eq!(bubble_measure(Orientation::Vertical, m(450, 900)), m(450, 900));
}

#[test]
fn label_with_indicators() {
    assert_eq!(label_measure(Orientation::Horizontal, false, m(10, 50), None), m(10, 50));
    assert_eq!(label_measure(Orientation::Horizontal, true, m(10, 50), Some(m(20, 30))), m(20, 50));
    assert_eq!(label_measure(Orientation::Vertical, false, m(10, 50), Some(m(20, 30))), m(20, 50));
    assert_eq!(label_measure(Orientation::Vertical, true, m(10, 50), Some(m(20, 30))), m(40, 80));
}

#[test]
fn shape_over_placeholder() {
    assert_eq!(indicators_shape("no placeholder", 10, 20), None);
    // "é" takes two bytes, so the placeholder starts at byte 3.
    assert_eq!(
        indicators_shape("aé\u{fffc}", 10, 20),
        Some(ShapeAttribute { start_index: 3, end_index: 6, y: -15 * 1024, width: 16 * 1024, height: 20 * 1024 })
    );
    let shape = indicators_shape("\u{fffc}", 0, -7).unwrap();
    assert_eq!(shape.start_index, 0);
    assert_eq!(shape.y, 6 * 1024);
}

#[test]
fn folder_icon_measures() {
    let mut icon = FolderIcon { unread_label_width: 0, unread_label_height: 0 };
    let r = icon.measure(
        Orientation::Horizontal,
        Measurement { minimum: 16, natural: 24, minimum_baseline: -1, natural_baseline: 3 },
        m(10, 12),
        Measurement { minimum: 18, natural: 18, minimum_baseline: 2, natural_baseline: -1 },
    );
    assert_eq!(r, Measurement { minimum: 18, natural: 24, minimum_baseline: 2, natural_baseline: 3 });
    assert_eq!(icon.unread_label_width, 18);
    icon.measure(Orientation::Vertical, m(1, 1), m(1, 1), m(9, 9));
    assert_eq!(icon.unread_label_height, 9);
    assert_eq!(icon.unread_label_width, 18);
    assert_eq!(icon.mask_allocation(Direction::LeftToRight, 40), Rect { x: 20, y: 0, width: 20, height: 11 });
    assert_eq!(icon.mask_allocation(Direction::RightToLeft, 40), Rect { x: 0, y: 0, width: 20, height: 11 });
}

#[test]
fn map_sizes() {
    assert_eq!(marker_measure(Orientation::Vertical, None), m(0, 0));
    assert_eq!(marker_measure(Orientation::Vertical, Some(m(5, 7))), m(10, 14));
    assert_eq!(marker_measure(Orientation::Horizontal, Some(m(5, 7))), m(5, 7));
    assert_eq!(map_measure(-1, 150, 225), (150, 225));
    assert_eq!(map_measure(100, 150, 225), (150, 150));
    assert_eq!(map_measure(200, 150, 225), (150, 200));
    assert_eq!(map_measure(300, 150, 225), (150, 225));
    assert_eq!(map_width_measure(-1), m(242, 364));
    assert_eq!(map_width_measure(300), m(242, 300));
}

#[test]
fn license_position_round_trip() {
    let mut label = LicenseLabel { valign: Align::Fill, halign: Align::Fill };
    assert_eq!(label.license_position(), LicensePosition::BottomRight);
    for position in [LicensePosition::TopLeft, LicensePosition::TopRight, LicensePosition::BottomRight] {
        assert!(!label.set_license_position(position));
        assert_eq!(label.license_position(), position);
    }
    // The bottom left corner reads back as the bottom right one.
    assert!(label.set_license_position(LicensePosition::BottomLeft));
    assert_eq!(label, LicenseLabel { valign: Align::End, halign: Align::Start });
    assert_eq!(label.license_position(), LicensePosition::BottomRight);
}

#[test]
fn chat_list_icons() {
    assert_eq!(row_menu_halign(Direction::RightToLeft), Align::End);
    assert_eq!(row_menu_halign(Direction::LeftToRight), Align::Start);
    assert_eq!(chat_list_icon_name(ChatListType::Main, "Travel"), "all-chats-symbolic");
    assert_eq!(chat_list_icon_name(ChatListType::Archive, "Travel"), "");
    assert_eq!(chat_list_icon_name(ChatListType::Folder(1), "Travel"), "emoji-travel-symbolic");
    assert_eq!(chat_list_icon_name(ChatListType::Folder(1), "Airplane"), "airplane-mode-symbolic");
    assert_eq!(chat_list_icon_name(ChatListType::Folder(1), "Custom"), "folder-symbolic");
    assert_eq!(chat_list_icon_name(ChatListType::Folder(1), "Cat"), "folder-symbolic");
    assert_eq!(chat_list_icon_name(ChatListType::Folder(1), "Unread"), "mail-unread-symbolic");
}

#[test]
fn folder_rows() {
    assert_eq!(folder_menu_halign(Direction::LeftToRight), Align::Start);
    assert_eq!(folder_menu_halign(Direction::Neutral), Align::End);
    assert_eq!(row_menu_halign(Direction::Neutral), Align::Start);
    assert_eq!(chat_list_title(ChatListType::Main, "x".to_string()), ChatListTitle::AllChats);
    assert_eq!(chat_list_title(ChatListType::Archive, "x".to_string()), ChatListTitle::ArchivedChats);
    assert_eq!(chat_list_title(ChatListType::Folder(2), "Work".to_string()), ChatListTitle::Folder("Work".to_string()));
}

#[test]
fn map_window_centering() {
    let c = paper_plane::layout::center_marker_controls(false, false, false, true);
    assert!(c.map_interactive && c.center_enabled);
    let c = paper_plane::layout::center_marker_controls(false, true, false, true);
    assert!(!c.map_interactive && !c.center_enabled);
    let c = paper_plane::layout::center_marker_controls(false, false, false, false);
    assert!(c.map_interactive && !c.center_enabled);
}
