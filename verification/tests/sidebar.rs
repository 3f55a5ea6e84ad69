use paper_plane::chat::{ChatKind, MemberStatus, MuteSettings};
use paper_plane::sidebar::{
    draft_message_text, message_status_icon, notification_scope, row_actions, row_date,
    sender_label, show_minithumbnail, status_badge, subtitle, subtitle_prefix, timestamp_format,
    unread_count_muted, ChatListType, ContentKind, LastMessage, MessageStatusIcon,
    NotificationScope, RowActions, SenderLabel, SendingState, StatusBadge, Subtitle,
    SubtitlePrefix, TimestampFormat,
};

#[test]
fn status_icons() {
    let out = |id, state| Some(LastMessage { id, is_outgoing: true, sending_state: state });
    assert_eq!(message_status_icon(true, out(1, None), 1), MessageStatusIcon::Hidden);
    assert_eq!(message_status_icon(false, None, 1), MessageStatusIcon::Hidden);
    assert_eq!(
        message_status_icon(false, Some(LastMessage { id: 1, is_outgoing: false, sending_state: None }), 1),
        MessageStatusIcon::Hidden
    );
    assert_eq!(message_status_icon(false, out(1, Some(SendingState::Failed)), 1), MessageStatusIcon::Failed);
    assert_eq!(message_status_icon(false, out(1, Some(SendingState::Pending)), 1), MessageStatusIcon::Pending);
    assert_eq!(message_status_icon(false, out(5, None), 5), MessageStatusIcon::Read);
    assert_eq!(message_status_icon(false, out(5, None), 4), MessageStatusIcon::Unread);
    assert_eq!(MessageStatusIcon::Read.icon_name(), Some("message-read-symbolic"));
    assert_eq!(MessageStatusIcon::Unread.icon_name(), Some("message-unread-right-symbolic"));
    assert_eq!(MessageStatusIcon::Failed.css_class(), Some("error"));
    assert_eq!(MessageStatusIcon::Pending.css_class(), Some("dim-label"));
    assert_eq!(MessageStatusIcon::Hidden.icon_name(), None);
}

#[test]
fn row_texts() {
    assert_eq!(row_date(Some(5), Some(9)), Some(5));
    assert_eq!(row_date(None, Some(9)), Some(9));
    assert_eq!(row_date(None, None), None);
    assert_eq!(subtitle_prefix(true, true, true), SubtitlePrefix::Hidden);
    assert_eq!(subtitle_prefix(false, true, true), SubtitlePrefix::Draft);
    assert_eq!(subtitle_prefix(false, false, true), SubtitlePrefix::Sender);
    assert_eq!(subtitle_prefix(false, false, false), SubtitlePrefix::Hidden);
    assert!(show_minithumbnail(0, false, true));
    assert!(!show_minithumbnail(1, false, true));
    assert!(!show_minithumbnail(0, true, true));
    assert!(!show_minithumbnail(0, false, false));
    assert_eq!(subtitle(true, true, true), Subtitle::Action);
    assert_eq!(subtitle(false, true, true), Subtitle::Draft);
    assert_eq!(subtitle(false, false, true), Subtitle::LastMessage);
    assert_eq!(subtitle(false, false, false), Subtitle::Empty);
    assert_eq!(draft_message_text(Some("hi".to_string())), "hi");
    assert_eq!(draft_message_text(None), "");
}

#[test]
fn badges_and_style() {
    assert_eq!(status_badge(1, 5, true, true), StatusBadge::Mentions);
    assert_eq!(status_badge(0, 5, false, true), StatusBadge::UnreadCount);
    assert_eq!(status_badge(0, 0, true, true), StatusBadge::UnreadCount);
    assert_eq!(status_badge(0, 0, false, true), StatusBadge::Pin);
    assert_eq!(status_badge(0, 0, false, false), StatusBadge::Empty);
    assert_eq!(notification_scope(ChatKind::Secret { closed: false }), NotificationScope::PrivateChats);
    assert_eq!(
        notification_scope(ChatKind::Supergroup { is_channel: true, status: MemberStatus::Member }),
        NotificationScope::ChannelChats
    );
    assert_eq!(
        notification_scope(ChatKind::BasicGroup { status: MemberStatus::Member }),
        NotificationScope::GroupChats
    );
    assert!(unread_count_muted(MuteSettings { use_default_mute_for: true, mute_for: 0 }, 10));
    assert!(!unread_count_muted(MuteSettings { use_default_mute_for: true, mute_for: 0 }, 0));
    assert!(!unread_count_muted(MuteSettings { use_default_mute_for: false, mute_for: 0 }, 10));
    assert!(unread_count_muted(MuteSettings { use_default_mute_for: false, mute_for: 3 }, 0));
}

#[test]
fn menu_actions() {
    assert_eq!(
        row_actions(None),
        RowActions { archive: false, unarchive: false, pin: false, unpin: false, mark_as_unread: false, mark_as_read: false }
    );
    assert_eq!(
        row_actions(Some((false, ChatListType::Main, false, 0, false))),
        RowActions { archive: true, unarchive: false, pin: true, unpin: false, mark_as_unread: true, mark_as_read: false }
    );
    assert_eq!(
        row_actions(Some((false, ChatListType::Archive, true, 3, false))),
        RowActions { archive: false, unarchive: true, pin: false, unpin: true, mark_as_unread: false, mark_as_read: true }
    );
    assert_eq!(
        row_actions(Some((true, ChatListType::Main, false, 0, true))),
        RowActions { archive: false, unarchive: false, pin: true, unpin: false, mark_as_unread: false, mark_as_read: true }
    );
    assert_eq!(
        row_actions(Some((false, ChatListType::Folder(2), false, 0, false))).archive,
        false
    );
}

#[test]
fn sender_labels() {
    let private = ChatKind::Private { user_deleted: false };
    let group = ChatKind::BasicGroup { status: MemberStatus::Member };
    let channel = ChatKind::Supergroup { is_channel: true, status: MemberStatus::Member };
    assert_eq!(sender_label(ContentKind::Other, false, true, false, group), SenderLabel::NoLabel);
    assert_eq!(sender_label(ContentKind::Text, true, true, true, private), SenderLabel::NoLabel);
    assert_eq!(sender_label(ContentKind::Photo, true, false, true, private), SenderLabel::ForwardOrigin);
    assert_eq!(sender_label(ContentKind::Photo, true, false, false, private), SenderLabel::NoLabel);
    assert_eq!(sender_label(ContentKind::Text, false, true, false, group), SenderLabel::You);
    assert_eq!(sender_label(ContentKind::Text, false, false, false, group), SenderLabel::Sender);
    assert_eq!(sender_label(ContentKind::Text, false, false, false, channel), SenderLabel::NoLabel);
    assert_eq!(sender_label(ContentKind::Text, false, false, false, private), SenderLabel::NoLabel);
    assert_eq!(sender_label(ContentKind::Venue, false, true, false, private), SenderLabel::You);
}

#[test]
fn timestamp_formats() {
    assert_eq!(timestamp_format(0, 0), TimestampFormat::Time);
    assert_eq!(timestamp_format(16, 0), TimestampFormat::Time);
    assert_eq!(timestamp_format(17, 0), TimestampFormat::Weekday);
    assert_eq!(timestamp_format(200, 5), TimestampFormat::Weekday);
    assert_eq!(timestamp_format(200, 6), TimestampFormat::DayMonth);
    assert_eq!(timestamp_format(9000, 363), TimestampFormat::DayMonth);
    assert_eq!(timestamp_format(9000, 364), TimestampFormat::Date);
    assert_eq!(TimestampFormat::DayMonth.pattern(), "%d %b");
    assert_eq!(TimestampFormat::Time.pattern(), "%l:%M %p");
}
