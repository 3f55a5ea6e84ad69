//! What the content view offers for a chat: which bar is shown under the
//! history, whether messages can be sent, replied to and edited, and
//! whether the chat is muted.

use vstd::prelude::*;

verus! {

/// The status of the own user in a group or channel.
#[derive(PartialEq, Eq, Structural, Clone, Copy, Debug)]
pub enum MemberStatus {
    Creator,
    Administrator,
    Member,
    /// Restricted, with the own permission to send plain messages.
    Restricted { can_send_basic_messages: bool },
    Left,
    Banned,
}

/// The kind of a chat, with what the views need of it.
#[derive(PartialEq, Eq, Structural, Clone, Copy, Debug)]
pub enum ChatKind {
    /// A chat with a user; whether that user's account is deleted.
    Private { user_deleted: bool },
    /// A secret chat; whether it is closed.
    Secret { closed: bool },
    /// A basic group.
    BasicGroup { status: MemberStatus },
    /// A supergroup; whether it is a channel.
    Supergroup { is_channel: bool, status: MemberStatus },
}

/// The bar shown under the history of a chat.
#[derive(PartialEq, Eq, Structural, Clone, Copy, Debug)]
pub enum ActionBarPage {
    /// The message entry.
    Entry,
    /// A button to unblock the chat.
    Unblock,
    /// A button to join the chat.
    Join,
    /// A button to mute or unmute the channel; `muted` tells which label it
    /// carries ("Unmute" when muted).
    Mute { muted: bool },
    /// A note that the own user may not send messages.
    Restricted,
}

/// Which bar a chat shows: the entry for private and secret chats unless
/// they are blocked (and the user not deleted, the secret chat not closed);
/// for channels the entry for their owner and administrators, the join
/// button for those who left, the mute button for the others; for groups
/// the join button for those who left, the restriction note for restricted
/// members (of a supergroup: those who may not send plain messages), the
/// entry otherwise.
pub open spec fn spec_action_bar_page(kind: ChatKind, blocked: bool, muted: bool) -> ActionBarPage {
    match kind {
        ChatKind::Private { user_deleted } => if user_deleted {
            ActionBarPage::Entry
        } else if blocked {
            ActionBarPage::Unblock
        } else {
            ActionBarPage::Entry
        },
        ChatKind::Secret { closed } => if closed {
            ActionBarPage::Entry
        } else if blocked {
            ActionBarPage::Unblock
        } else {
            ActionBarPage::Entry
        },
        ChatKind::Supergroup { is_channel, status } => if is_channel {
            match status {
                MemberStatus::Creator | MemberStatus::Administrator => ActionBarPage::Entry,
                MemberStatus::Left => ActionBarPage::Join,
                _ => ActionBarPage::Mute { muted },
            }
        } else {
            match status {
                MemberStatus::Restricted { can_send_basic_messages } => if !can_send_basic_messages {
                    ActionBarPage::Restricted
                } else {
                    ActionBarPage::Entry
                },
                MemberStatus::Left => ActionBarPage::Join,
                _ => ActionBarPage::Entry,
            }
        },
        ChatKind::BasicGroup { status } => match status {
            MemberStatus::Restricted { .. } => ActionBarPage::Restricted,
            MemberStatus::Left => ActionBarPage::Join,
            _ => ActionBarPage::Entry,
        },
    }
}

/// The bar to show under the history of a chat of `kind`; `blocked` tells
/// whether the chat is blocked and `muted` whether it is muted.
pub fn action_bar_page(kind: ChatKind, blocked: bool, muted: bool) -> (page: ActionBarPage)
    ensures
        page == spec_action_bar_page(kind, blocked, muted),
{
    match kind {
        ChatKind::Private { user_deleted } => if user_deleted {
            ActionBarPage::Entry
        } else if blocked {
            ActionBarPage::Unblock
        } else {
            ActionBarPage::Entry
        },
        ChatKind::Secret { closed } => if closed {
            ActionBarPage::Entry
        } else if blocked {
            ActionBarPage::Unblock
        } else {
            ActionBarPage::Entry
        },
        ChatKind::Supergroup { is_channel, status } => if is_channel {
            match status {
                MemberStatus::Creator | MemberStatus::Administrator => ActionBarPage::Entry,
                MemberStatus::Left => ActionBarPage::Join,
                _ => ActionBarPage::Mute { muted },
            }
        } else {
            match status {
                MemberStatus::Restricted { can_send_basic_messages } => if !can_send_basic_messages {
                    ActionBarPage::Restricted
                } else {
                    ActionBarPage::Entry
                },
                MemberStatus::Left => ActionBarPage::Join,
                _ => ActionBarPage::Entry,
            }
        },
        ChatKind::BasicGroup { status } => match status {
            MemberStatus::Restricted { .. } => ActionBarPage::Restricted,
            MemberStatus::Left => ActionBarPage::Join,
            _ => ActionBarPage::Entry,
        },
    }
}

/// The notification settings of a chat that decide whether it is muted.
#[derive(PartialEq, Eq, Structural, Clone, Copy, Debug)]
pub struct MuteSettings {
    /// Whether the chat follows the default of its scope.
    pub use_default_mute_for: bool,
    /// For how many seconds the chat is muted; 0 when it is not.
    pub mute_for: i32,
}

/// Whether a chat is muted: by its scope's default when it follows it,
/// by its own setting otherwise.
pub open spec fn spec_is_chat_muted(settings: MuteSettings, default_mute_for: i32) -> bool {
    if settings.use_default_mute_for {
        default_mute_for != 0
    } else {
        settings.mute_for != 0
    }
}

/// Whether a chat with `settings` is muted, when the default of its scope
/// mutes for `default_mute_for` seconds.
pub fn is_chat_muted(settings: MuteSettings, default_mute_for: i32) -> (muted: bool)
    ensures
        muted == spec_is_chat_muted(settings, default_mute_for),
{
    if settings.use_default_mute_for {
        default_mute_for != 0
    } else {
        settings.mute_for != 0
    }
}

/// The settings after the mute button was pressed at Unix time `now`: a
/// chat that mutes as long as the default stops following it and is muted
/// until the end of time (unmuted, if it was not muted); any other chat
/// goes back to the default.
pub open spec fn spec_toggle_mute(settings: MuteSettings, default_mute_for: i32, now: i32) -> MuteSettings {
    if default_mute_for == settings.mute_for {
        MuteSettings {
            use_default_mute_for: false,
            mute_for: if settings.mute_for == 0 { (i32::MAX - now) as i32 } else { 0 },
        }
    } else {
        MuteSettings { use_default_mute_for: true, mute_for: settings.mute_for }
    }
}

/// Toggles the muting of a chat at Unix time `now`.
pub fn toggle_mute(settings: MuteSettings, default_mute_for: i32, now: i32) -> (r: MuteSettings)
    requires
        now >= 0,
    ensures
        r == spec_toggle_mute(settings, default_mute_for, now),
{
    let mut notifications = settings;
    if default_mute_for == notifications.mute_for {
        notifications.use_default_mute_for = false;
        if notifications.mute_for == 0 {
            notifications.mute_for = i32::MAX - now;
        } else {
            notifications.mute_for = 0;
        }
    } else {
        notifications.use_default_mute_for = true;
    }
    notifications
}

/// When a chat's own muting agrees with the default of its scope, pressing
/// the mute button flips whether the chat is muted.
pub proof fn lemma_toggle_mute_flips(settings: MuteSettings, default_mute_for: i32, now: i32)
    requires
        settings.mute_for == default_mute_for,
        0 <= now < i32::MAX,
    ensures
        spec_is_chat_muted(spec_toggle_mute(settings, default_mute_for, now), default_mute_for)
            == !spec_is_chat_muted(settings, default_mute_for),
{
}

/// Whether the own user may send messages in a chat: always outside
/// groups; in groups as owner or administrator, as member when the chat
/// permits plain messages, as restricted member when both the chat and the
/// restriction permit them, never after leaving or being banned.
pub open spec fn spec_can_send_messages(kind: ChatKind, chat_can_send_basic_messages: bool) -> bool {
    let status = match kind {
        ChatKind::Supergroup { status, .. } => Some(status),
        ChatKind::BasicGroup { status } => Some(status),
        _ => None,
    };
    match status {
        None => true,
        Some(MemberStatus::Creator) => true,
        Some(MemberStatus::Administrator) => true,
        Some(MemberStatus::Member) => chat_can_send_basic_messages,
        Some(MemberStatus::Restricted { can_send_basic_messages }) => chat_can_send_basic_messages
            && can_send_basic_messages,
        Some(MemberStatus::Left) => false,
        Some(MemberStatus::Banned) => false,
    }
}

/// Whether the own user may send messages in a chat of `kind` whose
/// permissions allow plain messages as `chat_can_send_basic_messages` says.
pub fn can_send_messages_in_chat(kind: ChatKind, chat_can_send_basic_messages: bool) -> (b: bool)
    ensures
        b == spec_can_send_messages(kind, chat_can_send_basic_messages),
{
    let status = match kind {
        ChatKind::Supergroup { status, .. } => Some(status),
        ChatKind::BasicGroup { status } => Some(status),
        _ => None,
    };
    match status {
        None => true,
        Some(MemberStatus::Creator) => true,
        Some(MemberStatus::Administrator) => true,
        Some(MemberStatus::Member) => chat_can_send_basic_messages,
        Some(MemberStatus::Restricted { can_send_basic_messages }) => chat_can_send_basic_messages
            && can_send_basic_messages,
        Some(MemberStatus::Left) => false,
        Some(MemberStatus::Banned) => false,
    }
}

/// Whether a message can be answered: it must be a message of a chat (not
/// a sponsored one) where messages can be sent.
pub fn can_reply_to_message(is_chat_message: bool, kind: ChatKind, chat_can_send_basic_messages: bool) -> (b: bool)
    ensures
        b == (is_chat_message && spec_can_send_messages(kind, chat_can_send_basic_messages)),
{
    if is_chat_message {
        can_send_messages_in_chat(kind, chat_can_send_basic_messages)
    } else {
        false
    }
}

/// Whether a message can be edited: a text message of a chat, editable,
/// in a chat where messages can be sent.
pub fn can_edit_message(
    is_chat_message: bool,
    is_text_message: bool,
    can_be_edited: bool,
    kind: ChatKind,
    chat_can_send_basic_messages: bool,
) -> (b: bool)
    ensures
        b == (is_chat_message && is_text_message && can_be_edited && spec_can_send_messages(
            kind,
            chat_can_send_basic_messages,
        )),
{
    if is_chat_message {
        is_text_message && can_be_edited && can_send_messages_in_chat(kind, chat_can_send_basic_messages)
    } else {
        false
    }
}

/// The join button shows only to those who left a group or channel; an
/// ordinary member, the creator or an administrator of a group that is not
/// a channel gets the message entry; only channels show the mute button;
/// private and secret chats show the entry or, when blocked and open, the
/// unblock button.
pub proof fn lemma_action_bar_page_by_membership(kind: ChatKind, blocked: bool, muted: bool)
    ensures
        spec_action_bar_page(kind, blocked, muted) == ActionBarPage::Join ==> (match kind {
            ChatKind::Supergroup { status, .. } => status == MemberStatus::Left,
            ChatKind::BasicGroup { status } => status == MemberStatus::Left,
            _ => false,
        }),
        (match kind {
            ChatKind::Supergroup { status, .. } => status == MemberStatus::Left,
            ChatKind::BasicGroup { status } => status == MemberStatus::Left,
            _ => false,
        }) ==> spec_action_bar_page(kind, blocked, muted) == ActionBarPage::Join,
        (match kind {
            ChatKind::Supergroup { is_channel, status } => !is_channel
                && (status == MemberStatus::Member || status == MemberStatus::Creator || status == MemberStatus::Administrator),
            ChatKind::BasicGroup { status } =>
                status == MemberStatus::Member || status == MemberStatus::Creator || status == MemberStatus::Administrator,
            _ => false,
        }) ==> spec_action_bar_page(kind, blocked, muted) == ActionBarPage::Entry,
        spec_action_bar_page(kind, blocked, muted) is Mute ==> (kind matches ChatKind::Supergroup { is_channel: true, .. }),
        (kind is Private || kind is Secret) ==> (spec_action_bar_page(kind, blocked, muted) == ActionBarPage::Entry
            || (blocked && spec_action_bar_page(kind, blocked, muted) == ActionBarPage::Unblock)),
{
}

} // verus!
