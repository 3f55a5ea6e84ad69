use paper_plane::chat::{
    action_bar_page, can_edit_message, can_reply_to_message, can_send_messages_in_chat,
    is_chat_muted, toggle_mute, ActionBarPage, ChatKind, MemberStatus, MuteSettings,
};

#[test]
fn action_bar_pages() {
    let private = ChatKind::Private { user_deleted: false };
    assert_eq!(action_bar_page(private, false, false), ActionBarPage::Entry);
    assert_eq!(action_bar_page(private, true, false), ActionBarPage::Unblock);
    assert_eq!(
        action_bar_page(ChatKind::Private { user_deleted: true }, true, false),
        ActionBarPage::Entry
    );
    assert_eq!(action_bar_page(ChatKind::Secret { closed: false }, true, false), ActionBarPage::Unblock);
    assert_eq!(action_bar_page(ChatKind::Secret { closed: true }, true, false), ActionBarPage::Entry);
    let channel = |status| ChatKind::Supergroup { is_channel: true, status };
    assert_eq!(action_bar_page(channel(MemberStatus::Creator), false, false), ActionBarPage::Entry);
    assert_eq!(action_bar_page(channel(MemberStatus::Administrator), false, false), ActionBarPage::Entry);
    assert_eq!(action_bar_page(channel(MemberStatus::Left), false, false), ActionBarPage::Join);
    assert_eq!(
        action_bar_page(channel(MemberStatus::Member), false, true),
        ActionBarPage::Mute { muted: true }
    );
    let group = |status| ChatKind::Supergroup { is_channel: false, status };
    assert_eq!(
        action_bar_page(group(MemberStatus::Restricted { can_send_basic_messages: false }), false, false),
        ActionBarPage::Restricted
    );
    assert_eq!(
        action_bar_page(group(MemberStatus::Restricted { can_send_basic_messages: true }), false, false),
        ActionBarPage::Entry
    );
    assert_eq!(action_bar_page(group(MemberStatus::Left), false, false), ActionBarPage::Join);
    assert_eq!(action_bar_page(group(MemberStatus::Banned), false, false), ActionBarPage::Entry);
    let basic = |status| ChatKind::BasicGroup { status };
    assert_eq!(
        action_bar_page(basic(MemberStatus::Restricted { can_send_basic_messages: true }), false, false),
        ActionBarPage::Restricted
    );
    assert_eq!(action_bar_page(basic(MemberStatus::Left), false, false), ActionBarPage::Join);
    assert_eq!(action_bar_page(basic(MemberStatus::Member), false, false), ActionBarPage::Entry);
}

#[test]
fn muting() {
    let own = MuteSettings { use_default_mute_for: false, mute_for: 0 };
    assert!(!is_chat_muted(own, 100));
    let default = MuteSettings { use_default_mute_for: true, mute_for: 0 };
    assert!(is_chat_muted(default, 100));
    assert_eq!(
        toggle_mute(own, 0, 1000),
        MuteSettings { use_default_mute_for: false, mute_for: i32::MAX - 1000 }
    );
    assert_eq!(
        toggle_mute(MuteSettings { use_default_mute_for: false, mute_for: 50 }, 50, 1000),
        MuteSettings { use_default_mute_for: false, mute_for: 0 }
    );
    assert_eq!(
        toggle_mute(MuteSettings { use_default_mute_for: false, mute_for: 50 }, 0, 1000),
        MuteSettings { use_default_mute_for: true, mute_for: 50 }
    );
    // Toggling a chat whose setting agrees with the default flips it.
    let s = MuteSettings { use_default_mute_for: true, mute_for: 0 };
    assert_eq!(is_chat_muted(toggle_mute(s, 0, 5), 0), !is_chat_muted(s, 0));
}

#[test]
fn sending_permissions() {
    let private = ChatKind::Private { user_deleted: false };
    assert!(can_send_messages_in_chat(private, false));
    let basic = |status| ChatKind::BasicGroup { status };
    assert!(can_send_messages_in_chat(basic(MemberStatus::Creator), false));
    assert!(can_send_messages_in_chat(basic(MemberStatus::Administrator), false));
    assert!(can_send_messages_in_chat(basic(MemberStatus::Member), true));
    assert!(!can_send_messages_in_chat(basic(MemberStatus::Member), false));
    assert!(can_send_messages_in_chat(basic(MemberStatus::Restricted { can_send_basic_messages: true }), true));
    assert!(!can_send_messages_in_chat(basic(MemberStatus::Restricted { can_send_basic_messages: false }), true));
    assert!(!can_send_messages_in_chat(basic(MemberStatus::Left), true));
    assert!(!can_send_messages_in_chat(basic(MemberStatus::Banned), true));
    assert!(can_reply_to_message(true, private, false));
    assert!(!can_reply_to_message(false, private, true));
    assert!(can_edit_message(true, true, true, private, false));
    assert!(!can_edit_message(true, false, true, private, false));
    assert!(!can_edit_message(true, true, false, private, false));
    assert!(!can_edit_message(true, true, true, basic(MemberStatus::Left), true));
}
