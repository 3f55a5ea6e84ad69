use paper_plane::action_bar::{
    can_send_text, cancel_action, clipboard_image_extension, draft_state, send_action,
    send_button_icon, state_change, top_bar, CancelAction, ChatActionBarState, SendAction,
    StateChange, TopBar, TopBarTitle,
};

#[test]
fn replying_identifier() {
    assert_eq!(ChatActionBarState::Replying(7).replying(), 7);
    assert_eq!(ChatActionBarState::Editing(7).replying(), 0);
    assert_eq!(ChatActionBarState::default_state().replying(), 0);
}

#[test]
fn state_changes() {
    assert_eq!(
        state_change(ChatActionBarState::Composing, ChatActionBarState::Composing),
        StateChange { changed: false, clear_entry: false, save_draft: false, load_message: None }
    );
    assert_eq!(
        state_change(ChatActionBarState::Composing, ChatActionBarState::Editing(3)),
        StateChange { changed: true, clear_entry: false, save_draft: true, load_message: Some(3) }
    );
    assert_eq!(
        state_change(ChatActionBarState::Editing(3), ChatActionBarState::Replying(4)),
        StateChange { changed: true, clear_entry: true, save_draft: false, load_message: None }
    );
    assert_eq!(
        state_change(ChatActionBarState::Editing(3), ChatActionBarState::Editing(5)),
        StateChange { changed: true, clear_entry: true, save_draft: true, load_message: Some(5) }
    );
    assert_eq!(draft_state(9), ChatActionBarState::Replying(9));
    assert_eq!(draft_state(0), ChatActionBarState::Composing);
}

#[test]
fn cancelling_and_sending() {
    assert_eq!(cancel_action(ChatActionBarState::Editing(1), true), CancelAction::LoadDraft);
    assert_eq!(cancel_action(ChatActionBarState::Editing(1), false), CancelAction::Reset);
    assert_eq!(cancel_action(ChatActionBarState::Replying(1), true), CancelAction::Compose);
    assert_eq!(send_button_icon(ChatActionBarState::Editing(1)), "done-symbolic");
    assert_eq!(send_button_icon(ChatActionBarState::Composing), "go-up-symbolic");
    assert_eq!(send_action(ChatActionBarState::Editing(2)), SendAction::Edit(2));
    assert_eq!(send_action(ChatActionBarState::Replying(2)), SendAction::Send { reply_to: 2 });
    assert_eq!(send_action(ChatActionBarState::Composing), SendAction::Send { reply_to: 0 });
}

#[test]
fn top_bars() {
    assert_eq!(top_bar(ChatActionBarState::Composing, true), TopBar::Hidden);
    assert_eq!(
        top_bar(ChatActionBarState::Replying(1), true),
        TopBar::Shown { icon_is_reply: true, title: TopBarTitle::Sender, message_known: true }
    );
    assert_eq!(
        top_bar(ChatActionBarState::Editing(1), false),
        TopBar::Shown { icon_is_reply: false, title: TopBarTitle::Unknown, message_known: false }
    );
    assert_eq!(
        top_bar(ChatActionBarState::Editing(1), true),
        TopBar::Shown { icon_is_reply: false, title: TopBarTitle::EditMessage, message_known: true }
    );
}

#[test]
fn send_enabled_only_with_visible_text() {
    assert!(!can_send_text(""));
    assert!(!can_send_text(" \t\n\u{3000}\u{a0}"));
    assert!(can_send_text("  hi "));
    assert!(can_send_text("\u{200b}"));
}

#[test]
fn clipboard_extensions() {
    assert_eq!(clipboard_image_extension("image/png"), Some("png"));
    assert_eq!(clipboard_image_extension("image/jpg"), Some("jpg"));
    assert_eq!(clipboard_image_extension("image/jpeg"), None);
}

#[test]
fn chat_action_cooldown() {
    let mut c = paper_plane::action_bar::ChatActionCooldown::new();
    assert!(c.request());
    assert!(!c.request());
    assert_eq!(c.sent(true), Some(paper_plane::action_bar::CHAT_ACTION_COOLDOWN_SECONDS));
    assert!(!c.request());
    c.expired();
    assert!(c.request());
    assert_eq!(c.sent(false), None);
    assert!(c.request());
}
