//! Decisions of the session around the chats: whether an avatar shows its
//! user online, what a desktop notification says, and which login page a
//! new authorization step is shown on.

use vstd::prelude::*;
use crate::chat::ChatKind;
use crate::text::{push_str, string_from_chars};

verus! {

/// A user as an avatar of the sidebar sees it.
#[derive(PartialEq, Eq, Structural, Clone, Copy, Debug)]
pub struct AvatarUser {
    pub id: i64,
    /// Whether the account is a regular one (not a bot, not deleted).
    pub is_regular: bool,
    /// Whether the user's status is online.
    pub status_online: bool,
}

/// What a sidebar avatar is given.
#[derive(PartialEq, Eq, Structural, Clone, Copy, Debug)]
pub enum AvatarItem {
    /// A chat: whether it is the chat with oneself, and its user when it is
    /// a chat with a user.
    Chat { is_own_chat: bool, user: Option<AvatarUser> },
    /// A user.
    User(AvatarUser),
}

/// Whose picture an avatar shows.
#[derive(PartialEq, Eq, Structural, Clone, Copy, Debug)]
pub enum AvatarPicture {
    Chat,
    User(i64),
}

/// What an avatar shows: a picture and whether the online dot is on.
#[derive(PartialEq, Eq, Structural, Clone, Copy, Debug)]
pub struct AvatarState {
    pub picture: AvatarPicture,
    pub is_online: bool,
}

/// A user is shown online when the account is regular, its status is
/// online and it is not oneself.
pub open spec fn shown_online(user: AvatarUser, my_id: i64) -> bool {
    user.is_regular && user.status_online && my_id != user.id
}

fn user_online(user: AvatarUser, my_id: i64) -> (b: bool)
    ensures
        b == shown_online(user, my_id),
{
    if !user.is_regular {
        return false;
    }
    user.status_online && my_id != user.id
}

/// What an avatar shows for an item, given one's own id and whether the dot
/// was on before: the chat with oneself keeps the chat's picture and leaves
/// the dot as it was; a chat with a user, or a user, shows the user and
/// whether the user is online; any other chat shows its picture without
/// the dot.
pub fn avatar_state(item: AvatarItem, my_id: i64, was_online: bool) -> (r: AvatarState)
    ensures
        item matches AvatarItem::Chat { is_own_chat: true, .. } ==> r == (AvatarState { picture: AvatarPicture::Chat, is_online: was_online }),
        item matches AvatarItem::Chat { is_own_chat: false, user: Some(u) } ==> r == (AvatarState { picture: AvatarPicture::User(u.id), is_online: shown_online(u, my_id) }),
        item matches AvatarItem::Chat { is_own_chat: false, user: None } ==> r == (AvatarState { picture: AvatarPicture::Chat, is_online: false }),
        item matches AvatarItem::User(u) ==> r == (AvatarState { picture: AvatarPicture::User(u.id), is_online: shown_online(u, my_id) }),
{
    match item {
        AvatarItem::Chat { is_own_chat, user } => {
            if is_own_chat {
                AvatarState { picture: AvatarPicture::Chat, is_online: was_online }
            } else {
                match user {
                    Some(u) => AvatarState { picture: AvatarPicture::User(u.id), is_online: user_online(u, my_id) },
                    None => AvatarState { picture: AvatarPicture::Chat, is_online: false },
                }
            }
        },
        AvatarItem::User(u) => AvatarState { picture: AvatarPicture::User(u.id), is_online: user_online(u, my_id) },
    }
}

/// The kinds of notification that the server sends.
#[derive(PartialEq, Eq, Structural, Clone, Copy, Debug)]
pub enum NotificationKind {
    NewMessage,
    NewCall,
    /// A notification of another kind, which is not shown.
    Other,
}

/// The body of a desktop notification.
#[derive(PartialEq, Eq, Clone, Debug)]
pub enum NotificationBody {
    /// The text of a new message.
    Message(String),
    /// An incoming call (its words are translated where it is shown).
    IncomingCall,
}

/// Whether a chat is a group, where a message's body names its sender.
pub open spec fn is_group(chat: ChatKind) -> bool {
    match chat {
        ChatKind::BasicGroup { .. } => true,
        ChatKind::Supergroup { is_channel, .. } => !is_channel,
        _ => false,
    }
}

/// The body of the notification of a new message: its content, after the
/// sender's name and a colon in a group.
pub open spec fn message_body(chat: ChatKind, sender_name: Seq<char>, content: Seq<char>) -> Seq<char> {
    if is_group(chat) { sender_name + seq![':', ' '] + content } else { content }
}

/// The body of a desktop notification, or none for a kind that is not
/// shown.
pub fn notification_body(kind: NotificationKind, chat: ChatKind, sender_name: &str, content: &str) -> (r: Option<NotificationBody>)
    ensures
        kind == NotificationKind::NewMessage ==> (r matches Some(NotificationBody::Message(body)) && body@ == message_body(chat, sender_name@, content@)),
        kind == NotificationKind::NewCall ==> r == Some(NotificationBody::IncomingCall),
        kind == NotificationKind::Other ==> r is None,
{
    match kind {
        NotificationKind::NewMessage => {
            let group: bool = match chat {
                ChatKind::BasicGroup { .. } => true,
                ChatKind::Supergroup { is_channel, .. } => !is_channel,
                _ => false,
            };
            let mut out: Vec<char> = Vec::new();
            if group {
                push_str(&mut out, sender_name);
                out.push(':');
                out.push(' ');
            }
            push_str(&mut out, content);
            proof {
                if group {
                    assert(out@ =~= sender_name@ + seq![':', ' '] + content@);
                } else {
                    assert(out@ =~= content@);
                }
            }
            Some(NotificationBody::Message(string_from_chars(&out)))
        },
        NotificationKind::NewCall => Some(NotificationBody::IncomingCall),
        NotificationKind::Other => None,
    }
}

/// The steps of the authorization, each shown on a page of its own.
#[derive(PartialEq, Eq, Structural, Clone, Copy, Debug)]
pub enum AuthStep {
    PhoneNumber,
    OtherDevice,
    Code,
    Password,
    Registration,
}

/// What the login does with a new authorization step.
#[derive(PartialEq, Eq, Structural, Clone, Copy, Debug)]
pub enum PageUpdate {
    /// The page shown is that of the step: it is handed the new state.
    Update,
    /// A new page for the step replaces the one shown.
    Replace,
}

/// The page shown for a new authorization step: the page already shown is
/// kept when it is the step's, else a new one replaces it.
pub fn login_page_update(shown: Option<AuthStep>, step: AuthStep) -> (r: PageUpdate)
    ensures
        r == (if shown == Some(step) { PageUpdate::Update } else { PageUpdate::Replace }),
{
    match shown {
        Some(s) => if s == step { PageUpdate::Update } else { PageUpdate::Replace },
        None => PageUpdate::Replace,
    }
}

/// How a notification is delivered, by the chat's avatar.
#[derive(PartialEq, Eq, Structural, Clone, Copy, Debug)]
pub enum NotificationDelivery {
    /// Not sent: the chat has no avatar.
    NotSent,
    /// Sent with the avatar, which is on disk, as its icon.
    WithIcon,
    /// Sent at once, and again with the avatar as its icon once the avatar
    /// is downloaded.
    IconAfterDownload,
}

/// How a notification is delivered: only for a chat with an avatar, with
/// the avatar as its icon, at once if the avatar is on disk and after its
/// download otherwise.
pub fn notification_delivery(has_avatar: bool, avatar_downloaded: bool) -> (r: NotificationDelivery)
    ensures
        !has_avatar ==> r == NotificationDelivery::NotSent,
        has_avatar && avatar_downloaded ==> r == NotificationDelivery::WithIcon,
        has_avatar && !avatar_downloaded ==> r == NotificationDelivery::IconAfterDownload,
{
    if !has_avatar {
        NotificationDelivery::NotSent
    } else if avatar_downloaded {
        NotificationDelivery::WithIcon
    } else {
        NotificationDelivery::IconAfterDownload
    }
}

/// What selecting a chat in the sidebar does.
#[derive(PartialEq, Eq, Structural, Clone, Copy, Debug)]
pub enum ChatSelection {
    /// The chat is selected already: nothing changes.
    Unchanged,
    /// Select the chat, marking it as read when it was marked as unread.
    Select { chat_id: i64, mark_as_read: bool },
    /// No chat is selected any more.
    Clear,
}

/// What selecting a chat (by its id and whether it is marked as unread), or
/// none, does when `current` is selected.
pub fn select_chat(current: Option<i64>, chosen: Option<(i64, bool)>) -> (r: ChatSelection)
    ensures
        chosen is None ==> r == (if current is None { ChatSelection::Unchanged } else { ChatSelection::Clear }),
        chosen matches Some((id, marked_unread)) ==> r == (if current == Some(id) {
            ChatSelection::Unchanged
        } else {
            ChatSelection::Select { chat_id: id, mark_as_read: marked_unread }
        }),
{
    match chosen {
        None => match current {
            None => ChatSelection::Unchanged,
            Some(_) => ChatSelection::Clear,
        },
        Some((id, marked_unread)) => match current {
            Some(c) => if c == id {
                ChatSelection::Unchanged
            } else {
                ChatSelection::Select { chat_id: id, mark_as_read: marked_unread }
            },
            None => ChatSelection::Select { chat_id: id, mark_as_read: marked_unread },
        },
    }
}

/// Whether the answer to the dialog that logs a session out logs it out:
/// only "log-out" does.
pub fn logs_out(response: &str) -> (b: bool)
    ensures
        b == (response@ == "log-out"@),
{
    let answer: String = response.to_owned();
    let log_out: String = "log-out".to_owned();
    answer == log_out
}

/// How a picture chosen to be sent goes out.
#[derive(PartialEq, Eq, Structural, Clone, Copy, Debug)]
pub enum MediaContent {
    /// As a file, without detecting its content type.
    Document,
    /// As a photo of the picture's size.
    Photo { width: i32, height: i32 },
}

/// How a picture goes out: as a document when it is sent as a file, else
/// as a photo of the picture's intrinsic size.
pub fn media_content(send_as_file: bool, width: i32, height: i32) -> (r: MediaContent)
    ensures
        send_as_file ==> r == MediaContent::Document,
        !send_as_file ==> r == (MediaContent::Photo { width, height }),
{
    if send_as_file {
        MediaContent::Document
    } else {
        MediaContent::Photo { width, height }
    }
}

} // verus!
