use paper_plane::chat::{ChatKind, MemberStatus};
use paper_plane::session::{
    avatar_state, login_page_update, logs_out, media_content, notification_body,
    notification_delivery, select_chat, AuthStep, AvatarItem, AvatarPicture, AvatarState,
    AvatarUser, ChatSelection, MediaContent, NotificationBody, NotificationDelivery,
    NotificationKind, PageUpdate,
};

#[test]
fn avatar_online_dot() {
    let online = AvatarUser { id: 7, is_regular: true, status_online: true };
    let bot = AvatarUser { id: 8, is_regular: false, status_online: true };
    assert_eq!(avatar_state(AvatarItem::User(online), 1, false), AvatarState { picture: AvatarPicture::User(7), is_online: true });
    assert_eq!(avatar_state(AvatarItem::User(online), 7, true), AvatarState { picture: AvatarPicture::User(7), is_online: false });
    assert_eq!(avatar_state(AvatarItem::User(bot), 1, true), AvatarState { picture: AvatarPicture::User(8), is_online: false });
    assert_eq!(
        avatar_state(AvatarItem::Chat { is_own_chat: false, user: Some(online) }, 1, false),
        AvatarState { picture: AvatarPicture::User(7), is_online: true }
    );
    assert_eq!(
        avatar_state(AvatarItem::Chat { is_own_chat: false, user: None }, 1, true),
        AvatarState { picture: AvatarPicture::Chat, is_online: false }
    );
    assert_eq!(
        avatar_state(AvatarItem::Chat { is_own_chat: true, user: Some(online) }, 7, true),
        AvatarState { picture: AvatarPicture::Chat, is_online: true }
    );
}

#[test]
fn notification_bodies() {
    let group = ChatKind::BasicGroup { status: MemberStatus::Member };
    let channel = ChatKind::Supergroup { is_channel: true, status: MemberStatus::Member };
    let private = ChatKind::Private { user_deleted: false };
    assert_eq!(
        notification_body(NotificationKind::NewMessage, group, "Ann", "Hi"),
        Some(NotificationBody::Message("Ann: Hi".to_string()))
    );
    assert_eq!(
        notification_body(NotificationKind::NewMessage, channel, "Ann", "Hi"),
        Some(NotificationBody::Message("Hi".to_string()))
    );
    assert_eq!(
        notification_body(NotificationKind::NewMessage, private, "Ann", "Hi"),
        Some(NotificationBody::Message("Hi".to_string()))
    );
    assert_eq!(notification_body(NotificationKind::NewCall, group, "Ann", "Hi"), Some(NotificationBody::IncomingCall));
    assert_eq!(notification_body(NotificationKind::Other, group, "Ann", "Hi"), None);
    assert_eq!(notification_delivery(false, true), NotificationDelivery::NotSent);
    assert_eq!(notification_delivery(true, true), NotificationDelivery::WithIcon);
    assert_eq!(notification_delivery(true, false), NotificationDelivery::IconAfterDownload);
}

#[test]
fn login_pages() {
    assert_eq!(login_page_update(Some(AuthStep::Code), AuthStep::Code), PageUpdate::Update);
    assert_eq!(login_page_update(Some(AuthStep::Code), AuthStep::Password), PageUpdate::Replace);
    assert_eq!(login_page_update(None, AuthStep::PhoneNumber), PageUpdate::Replace);
}

#[test]
fn chat_selection() {
    assert_eq!(select_chat(Some(3), Some((3, true))), ChatSelection::Unchanged);
    assert_eq!(select_chat(Some(3), Some((4, true))), ChatSelection::Select { chat_id: 4, mark_as_read: true });
    assert_eq!(select_chat(None, Some((4, false))), ChatSelection::Select { chat_id: 4, mark_as_read: false });
    assert_eq!(select_chat(Some(3), None), ChatSelection::Clear);
    assert_eq!(select_chat(None, None), ChatSelection::Unchanged);
    assert!(logs_out("log-out"));
    assert!(!logs_out("cancel"));
    assert_eq!(media_content(true, 10, 20), MediaContent::Document);
    assert_eq!(media_content(false, 10, 20), MediaContent::Photo { width: 10, height: 20 });
}
