use paper_plane::chat::{ChatKind, MemberStatus};
use paper_plane::history::{
    content_widget, history_row, is_event, message_actions, reply_side, row_avatar,
    sticker_layout, viewed_message_id, ContentWidget, DayFormat, ForwardOrigin, HistoryItem,
    HistoryRow, MessageActions, MessageContent, MessagePermissions, MessageSender, ReplySide,
    RowAvatar, StickerFormat, StickerLayout, StickerMessage, StickerType,
};

#[test]
fn history_rows() {
    assert!(is_event(MessageContent::PinMessage));
    assert!(!is_event(MessageContent::Text));
    assert_eq!(history_row(HistoryItem::Message { id: 1, content: MessageContent::ChatJoinByLink }, 2024), HistoryRow::ContentEvent);
    assert_eq!(history_row(HistoryItem::Message { id: 1, content: MessageContent::Photo }, 2024), HistoryRow::Message);
    assert_eq!(history_row(HistoryItem::DayDivider { year: 2024 }, 2024), HistoryRow::DayEvent(DayFormat::WithoutYear));
    assert_eq!(history_row(HistoryItem::DayDivider { year: 2023 }, 2024), HistoryRow::DayEvent(DayFormat::WithYear));
    assert_eq!(history_row(HistoryItem::Sponsored { message_id: 9 }, 2024), HistoryRow::Message);
    assert_eq!(DayFormat::WithYear.pattern(), "%B %e, %Y");
    assert_eq!(DayFormat::WithoutYear.pattern(), "%B %e");
    assert_eq!(viewed_message_id(Some(HistoryItem::Message { id: 5, content: MessageContent::Text })), Some(5));
    assert_eq!(viewed_message_id(Some(HistoryItem::Sponsored { message_id: 9 })), Some(9));
    assert_eq!(viewed_message_id(Some(HistoryItem::DayDivider { year: 1 })), None);
    assert_eq!(viewed_message_id(None), None);
}

#[test]
fn content_widgets() {
    assert_eq!(content_widget(MessageContent::Animation), ContentWidget::Video);
    assert_eq!(content_widget(MessageContent::Video), ContentWidget::Text);
    assert_eq!(content_widget(MessageContent::Sticker(StickerFormat::Tgs)), ContentWidget::Sticker);
    assert_eq!(content_widget(MessageContent::Sticker(StickerFormat::Webm)), ContentWidget::Text);
    assert_eq!(content_widget(MessageContent::AnimatedEmoji { sticker: Some(StickerFormat::Webp) }), ContentWidget::Sticker);
    assert_eq!(content_widget(MessageContent::AnimatedEmoji { sticker: None }), ContentWidget::Text);
    assert_eq!(content_widget(MessageContent::Venue), ContentWidget::Venue);
}

#[test]
fn avatars_beside_messages() {
    let group = ChatKind::BasicGroup { status: MemberStatus::Member };
    let private = ChatKind::Private { user_deleted: false };
    assert_eq!(row_avatar(false, false, None, group, MessageSender::User(4)), RowAvatar::User(4));
    assert_eq!(row_avatar(true, false, None, group, MessageSender::User(4)), RowAvatar::Hidden);
    assert_eq!(row_avatar(false, false, None, private, MessageSender::User(4)), RowAvatar::Hidden);
    assert_eq!(row_avatar(false, true, None, private, MessageSender::User(4)), RowAvatar::Hidden);
    assert_eq!(row_avatar(false, true, Some(ForwardOrigin::Channel(8)), private, MessageSender::User(4)), RowAvatar::Chat(8));
    assert_eq!(
        row_avatar(false, true, Some(ForwardOrigin::HiddenUser("Bob".to_string())), private, MessageSender::User(4)),
        RowAvatar::Text("Bob".to_string())
    );
}

#[test]
fn message_row_actions() {
    let p = MessagePermissions { can_reply: true, can_edit: false, can_be_deleted_only_for_self: true, can_be_deleted_for_all_users: false };
    assert_eq!(message_actions(Some(p)), MessageActions { reply: true, edit: false, delete: true, revoke_delete: false });
    assert_eq!(message_actions(None), MessageActions { reply: false, edit: false, delete: false, revoke_delete: false });
}

#[test]
fn stickers() {
    assert_eq!(
        sticker_layout(StickerMessage::Sticker(StickerType::Regular)),
        StickerLayout { looped: true, needs_repainting: false, size: 176, margin_bottom: 0 }
    );
    assert_eq!(
        sticker_layout(StickerMessage::AnimatedEmoji(StickerType::Regular)),
        StickerLayout { looped: false, needs_repainting: false, size: 112, margin_bottom: 8 }
    );
    assert_eq!(
        sticker_layout(StickerMessage::AnimatedEmoji(StickerType::CustomEmoji { needs_repainting: true })),
        StickerLayout { looped: true, needs_repainting: true, size: 112, margin_bottom: 8 }
    );
    assert_eq!(reply_side(false, true), ReplySide::NoReply);
    assert_eq!(reply_side(true, true), ReplySide::BeforeSticker);
    assert_eq!(reply_side(true, false), ReplySide::AfterSticker);
}
