//! The rows of the chat list in the sidebar: which icon, labels, badges and
//! menu actions a chat shows.

use vstd::prelude::*;
use crate::chat::{ChatKind, MuteSettings};

verus! {

/// The sending state of an outgoing message.
#[derive(PartialEq, Eq, Structural, Clone, Copy, Debug)]
pub enum SendingState {
    Pending,
    Failed,
}

/// What the rows need of the last message of a chat.
#[derive(PartialEq, Eq, Structural, Clone, Copy, Debug)]
pub struct LastMessage {
    pub id: i64,
    pub is_outgoing: bool,
    /// `None` once the message was sent.
    pub sending_state: Option<SendingState>,
}

/// The icon that tells how far the last outgoing message got.
#[derive(PartialEq, Eq, Structural, Clone, Copy, Debug)]
pub enum MessageStatusIcon {
    Hidden,
    Failed,
    Pending,
    Read,
    Unread,
}

impl MessageStatusIcon {
    /// The icon's name, if it is shown.
    pub fn icon_name(&self) -> (s: Option<&'static str>)
        ensures
            *self == MessageStatusIcon::Hidden <==> s is None,
            *self == MessageStatusIcon::Failed ==> s->0@ == "message-failed-symbolic"@,
            *self == MessageStatusIcon::Pending ==> s->0@ == "message-pending-symbolic"@,
            *self == MessageStatusIcon::Read ==> s->0@ == "message-read-symbolic"@,
            *self == MessageStatusIcon::Unread ==> s->0@ == "message-unread-right-symbolic"@,
    {
        match self {
            MessageStatusIcon::Hidden => None,
            MessageStatusIcon::Failed => Some("message-failed-symbolic"),
            MessageStatusIcon::Pending => Some("message-pending-symbolic"),
            MessageStatusIcon::Read => Some("message-read-symbolic"),
            MessageStatusIcon::Unread => Some("message-unread-right-symbolic"),
        }
    }

    /// The style class of the icon, if it is shown.
    pub fn css_class(&self) -> (s: Option<&'static str>)
        ensures
            *self == MessageStatusIcon::Hidden <==> s is None,
            *self == MessageStatusIcon::Failed ==> s->0@ == "error"@,
            *self == MessageStatusIcon::Pending ==> s->0@ == "dim-label"@,
            (*self == MessageStatusIcon::Read || *self == MessageStatusIcon::Unread) ==> s->0@ == "accent"@,
    {
        match self {
            MessageStatusIcon::Hidden => None,
            MessageStatusIcon::Failed => Some("error"),
            MessageStatusIcon::Pending => Some("dim-label"),
            MessageStatusIcon::Read => Some("accent"),
            MessageStatusIcon::Unread => Some("accent"),
        }
    }
}

/// The status icon of a chat's row: none for the own chat or when the last
/// message is not outgoing; failed or pending while it is being sent; read
/// once it is the last message the other side has read, unread before.
pub open spec fn spec_message_status_icon(is_own_chat: bool, last: Option<LastMessage>, last_read_outbox_message_id: i64) -> MessageStatusIcon {
    if is_own_chat {
        MessageStatusIcon::Hidden
    } else {
        match last {
            Some(m) => if m.is_outgoing {
                match m.sending_state {
                    Some(SendingState::Failed) => MessageStatusIcon::Failed,
                    Some(SendingState::Pending) => MessageStatusIcon::Pending,
                    None => if m.id == last_read_outbox_message_id {
                        MessageStatusIcon::Read
                    } else {
                        MessageStatusIcon::Unread
                    },
                }
            } else {
                MessageStatusIcon::Hidden
            },
            None => MessageStatusIcon::Hidden,
        }
    }
}

/// The status icon of a chat's row.
pub fn message_status_icon(is_own_chat: bool, last: Option<LastMessage>, last_read_outbox_message_id: i64) -> (i: MessageStatusIcon)
    ensures
        i == spec_message_status_icon(is_own_chat, last, last_read_outbox_message_id),
{
    if is_own_chat {
        return MessageStatusIcon::Hidden;
    }
    match last {
        Some(m) => if m.is_outgoing {
            match m.sending_state {
                Some(SendingState::Failed) => MessageStatusIcon::Failed,
                Some(SendingState::Pending) => MessageStatusIcon::Pending,
                None => if m.id == last_read_outbox_message_id {
                    MessageStatusIcon::Read
                } else {
                    MessageStatusIcon::Unread
                },
            }
        } else {
            MessageStatusIcon::Hidden
        },
        None => MessageStatusIcon::Hidden,
    }
}

/// The date a row shows: that of the draft, or else of the last message.
pub fn row_date(draft_date: Option<i32>, last_message_date: Option<i32>) -> (d: Option<i32>)
    ensures
        d == (match draft_date {
            Some(x) => Some(x),
            None => last_message_date,
        }),
{
    match draft_date {
        Some(x) => Some(x),
        None => last_message_date,
    }
}

/// The label before a row's subtitle.
#[derive(PartialEq, Eq, Structural, Clone, Copy, Debug)]
pub enum SubtitlePrefix {
    Hidden,
    /// "Draft:", in the error style.
    Draft,
    /// The sender's name followed by a colon.
    Sender,
}

/// No prefix while someone is acting in the chat (typing, say); "Draft:"
/// when there is a draft; the sender of the last message when it has one
/// to show.
pub fn subtitle_prefix(has_action: bool, has_draft: bool, has_sender_label: bool) -> (p: SubtitlePrefix)
    ensures
        p == (if has_action {
            SubtitlePrefix::Hidden
        } else if has_draft {
            SubtitlePrefix::Draft
        } else if has_sender_label {
            SubtitlePrefix::Sender
        } else {
            SubtitlePrefix::Hidden
        }),
{
    if has_action {
        SubtitlePrefix::Hidden
    } else if has_draft {
        SubtitlePrefix::Draft
    } else if has_sender_label {
        SubtitlePrefix::Sender
    } else {
        SubtitlePrefix::Hidden
    }
}

/// The thumbnail of the last message shows unless someone acts in the chat
/// or there is a draft, and only when the message has one.
pub fn show_minithumbnail(n_actions: u32, has_draft: bool, has_thumbnail: bool) -> (b: bool)
    ensures
        b == (!(n_actions > 0 || has_draft) && has_thumbnail),
{
    if n_actions > 0 || has_draft {
        false
    } else {
        has_thumbnail
    }
}

/// The subtitle of a row.
#[derive(PartialEq, Eq, Structural, Clone, Copy, Debug)]
pub enum Subtitle {
    /// What someone does in the chat, in the accent style.
    Action,
    /// The text of the draft, dimmed.
    Draft,
    /// The content of the last message, dimmed.
    LastMessage,
    /// Nothing.
    Empty,
}

/// The subtitle: the latest action, else the draft, else the last message.
pub fn subtitle(has_action: bool, has_draft: bool, has_last_message: bool) -> (s: Subtitle)
    ensures
        s == (if has_action {
            Subtitle::Action
        } else if has_draft {
            Subtitle::Draft
        } else if has_last_message {
            Subtitle::LastMessage
        } else {
            Subtitle::Empty
        }),
{
    if has_action {
        Subtitle::Action
    } else if has_draft {
        Subtitle::Draft
    } else if has_last_message {
        Subtitle::LastMessage
    } else {
        Subtitle::Empty
    }
}

/// The badge at the end of a row.
#[derive(PartialEq, Eq, Structural, Clone, Copy, Debug)]
pub enum StatusBadge {
    /// The count of unread mentions.
    Mentions,
    /// The count of unread messages.
    UnreadCount,
    /// A pin.
    Pin,
    Empty,
}

/// Unread mentions come first, then unread messages (or a chat marked as
/// unread), then the pin.
pub fn status_badge(unread_mention_count: i32, unread_count: i32, is_marked_as_unread: bool, is_pinned: bool) -> (b: StatusBadge)
    ensures
        b == (if unread_mention_count > 0 {
            StatusBadge::Mentions
        } else if unread_count > 0 || is_marked_as_unread {
            StatusBadge::UnreadCount
        } else if is_pinned {
            StatusBadge::Pin
        } else {
            StatusBadge::Empty
        }),
{
    if unread_mention_count > 0 {
        StatusBadge::Mentions
    } else if unread_count > 0 || is_marked_as_unread {
        StatusBadge::UnreadCount
    } else if is_pinned {
        StatusBadge::Pin
    } else {
        StatusBadge::Empty
    }
}

/// The scopes of notification settings.
#[derive(PartialEq, Eq, Structural, Clone, Copy, Debug)]
pub enum NotificationScope {
    PrivateChats,
    GroupChats,
    ChannelChats,
}

/// The scope whose defaults a chat follows: private and secret chats,
/// channels, and the groups.
pub open spec fn spec_notification_scope(kind: ChatKind) -> NotificationScope {
    match kind {
        ChatKind::Private { .. } | ChatKind::Secret { .. } => NotificationScope::PrivateChats,
        ChatKind::Supergroup { is_channel, .. } => if is_channel {
            NotificationScope::ChannelChats
        } else {
            NotificationScope::GroupChats
        },
        ChatKind::BasicGroup { .. } => NotificationScope::GroupChats,
    }
}

/// The scope of notification settings that applies to a chat of `kind`.
pub fn notification_scope(kind: ChatKind) -> (s: NotificationScope)
    ensures
        s == spec_notification_scope(kind),
{
    match kind {
        ChatKind::Private { .. } | ChatKind::Secret { .. } => NotificationScope::PrivateChats,
        ChatKind::Supergroup { is_channel, .. } => if is_channel {
            NotificationScope::ChannelChats
        } else {
            NotificationScope::GroupChats
        },
        ChatKind::BasicGroup { .. } => NotificationScope::GroupChats,
    }
}

/// Whether the unread count shows in the muted style: a chat that follows
/// the default is muted when the scope mutes or its own setting does;
/// otherwise when its own setting does.
pub fn unread_count_muted(settings: MuteSettings, scope_mute_for: i32) -> (b: bool)
    ensures
        b == (if settings.use_default_mute_for {
            scope_mute_for > 0 || settings.mute_for > 0
        } else {
            settings.mute_for > 0
        }),
{
    if settings.use_default_mute_for {
        scope_mute_for > 0 || settings.mute_for > 0
    } else {
        settings.mute_for > 0
    }
}

/// The chat list a row belongs to.
#[derive(PartialEq, Eq, Structural, Clone, Copy, Debug)]
pub enum ChatListType {
    Main,
    Archive,
    Folder(i32),
}

/// Which menu actions of a row are enabled.
#[derive(PartialEq, Eq, Structural, Clone, Copy, Debug)]
pub struct RowActions {
    pub archive: bool,
    pub unarchive: bool,
    pub pin: bool,
    pub unpin: bool,
    pub mark_as_unread: bool,
    pub mark_as_read: bool,
}

/// The menu actions of a row: none without a chat; archiving from the main
/// list and unarchiving from the archive (never for the own chat); pinning
/// or unpinning as the chat is; marking as read when there are unread
/// messages or the chat is marked as unread, as unread otherwise.
pub open spec fn spec_row_actions(item: Option<(bool, ChatListType, bool, i32, bool)>) -> RowActions {
    match item {
        None => RowActions { archive: false, unarchive: false, pin: false, unpin: false, mark_as_unread: false, mark_as_read: false },
        Some((is_own_chat, list, is_pinned, unread_count, marked)) => RowActions {
            archive: !is_own_chat && list == ChatListType::Main,
            unarchive: !is_own_chat && list == ChatListType::Archive,
            pin: !is_pinned,
            unpin: is_pinned,
            mark_as_unread: unread_count <= 0 && !marked,
            mark_as_read: unread_count > 0 || marked,
        },
    }
}

/// The menu actions of a row for its item: whether the chat is the own
/// chat, its list, whether it is pinned, its unread count and whether it
/// is marked as unread.
pub fn row_actions(item: Option<(bool, ChatListType, bool, i32, bool)>) -> (a: RowActions)
    ensures
        a == spec_row_actions(item),
{
    match item {
        None => RowActions { archive: false, unarchive: false, pin: false, unpin: false, mark_as_unread: false, mark_as_read: false },
        Some((is_own_chat, list, is_pinned, unread_count, marked)) => {
            let (archive, unarchive) = if is_own_chat {
                (false, false)
            } else {
                match list {
                    ChatListType::Main => (true, false),
                    ChatListType::Archive => (false, true),
                    _ => (false, false),
                }
            };
            let (mark_as_unread, mark_as_read) = if unread_count > 0 {
                (false, true)
            } else {
                (!marked, marked)
            };
            RowActions { archive, unarchive, pin: !is_pinned, unpin: is_pinned, mark_as_unread, mark_as_read }
        },
    }
}

/// The content kinds of messages for which rows name the sender.
#[derive(PartialEq, Eq, Structural, Clone, Copy, Debug)]
pub enum ContentKind {
    Text,
    Location,
    Sticker,
    Photo,
    Audio,
    Animation,
    Video,
    Document,
    VoiceNote,
    Call,
    Venue,
    /// Any other content (service messages, say).
    Other,
}

/// Who a row names before the last message.
#[derive(PartialEq, Eq, Structural, Clone, Copy, Debug)]
pub enum SenderLabel {
    NoLabel,
    /// In the own chat: where the forwarded message came from.
    ForwardOrigin,
    /// "You".
    You,
    /// The sender's name.
    Sender,
}

/// The sender label of a row: only for ordinary content; in the own chat
/// the origin of a forwarded incoming message; elsewhere in groups (not
/// channels) the sender, and in private and secret chats only for own
/// messages; own messages are labelled "You".
pub open spec fn spec_sender_label(content: ContentKind, is_own_chat: bool, is_outgoing: bool, is_forwarded: bool, kind: ChatKind) -> SenderLabel {
    if content == ContentKind::Other {
        SenderLabel::NoLabel
    } else if is_own_chat {
        if is_outgoing || !is_forwarded {
            SenderLabel::NoLabel
        } else {
            SenderLabel::ForwardOrigin
        }
    } else {
        let show = match kind {
            ChatKind::BasicGroup { .. } => true,
            ChatKind::Supergroup { is_channel, .. } => !is_channel,
            _ => is_outgoing,
        };
        if !show {
            SenderLabel::NoLabel
        } else if is_outgoing {
            SenderLabel::You
        } else {
            SenderLabel::Sender
        }
    }
}

/// Decides who a row names before the last message.
pub fn sender_label(content: ContentKind, is_own_chat: bool, is_outgoing: bool, is_forwarded: bool, kind: ChatKind) -> (l: SenderLabel)
    ensures
        l == spec_sender_label(content, is_own_chat, is_outgoing, is_forwarded, kind),
{
    if content == ContentKind::Other {
        return SenderLabel::NoLabel;
    }
    if is_own_chat {
        if is_outgoing || !is_forwarded {
            SenderLabel::NoLabel
        } else {
            SenderLabel::ForwardOrigin
        }
    } else {
        let show = match kind {
            ChatKind::BasicGroup { .. } => true,
            ChatKind::Supergroup { is_channel, .. } => !is_channel,
            _ => is_outgoing,
        };
        if !show {
            SenderLabel::NoLabel
        } else if is_outgoing {
            SenderLabel::You
        } else {
            SenderLabel::Sender
        }
    }
}

/// How a row writes the date of its chat.
#[derive(PartialEq, Eq, Structural, Clone, Copy, Debug)]
pub enum TimestampFormat {
    /// The time of day (the translated format "%l:%M %p").
    Time,
    /// The day of the week ("%a").
    Weekday,
    /// The day and month ("%d %b").
    DayMonth,
    /// The whole date ("%x").
    Date,
}

impl TimestampFormat {
    /// The `strftime` format, the time of day untranslated.
    pub fn pattern(&self) -> (s: &'static str)
        ensures
            *self == TimestampFormat::Time ==> s@ == "%l:%M %p"@,
            *self == TimestampFormat::Weekday ==> s@ == "%a"@,
            *self == TimestampFormat::DayMonth ==> s@ == "%d %b"@,
            *self == TimestampFormat::Date ==> s@ == "%x"@,
    {
        match self {
            TimestampFormat::Time => "%l:%M %p",
            TimestampFormat::Weekday => "%a",
            TimestampFormat::DayMonth => "%d %b",
            TimestampFormat::Date => "%x",
        }
    }
}

/// The format for a date that lies `hours` whole hours and `days` whole
/// days in the past: the time up to 16 hours, the weekday below 6 days, day
/// and month below 364 days, the whole date beyond.
pub fn timestamp_format(hours: i64, days: i64) -> (f: TimestampFormat)
    ensures
        f == (if hours <= 16 {
            TimestampFormat::Time
        } else if days < 6 {
            TimestampFormat::Weekday
        } else if days < 364 {
            TimestampFormat::DayMonth
        } else {
            TimestampFormat::Date
        }),
{
    if hours <= 16 {
        TimestampFormat::Time
    } else if days < 6 {
        TimestampFormat::Weekday
    } else if days < 364 {
        TimestampFormat::DayMonth
    } else {
        TimestampFormat::Date
    }
}

/// The text of a draft: its text when it is a text message, empty
/// otherwise.
pub fn draft_message_text(text: Option<String>) -> (s: String)
    ensures
        s@ == (match text {
            Some(t) => t@,
            None => Seq::<char>::empty(),
        }),
{
    match text {
        Some(t) => t,
        None => String::new(),
    }
}

/// For ordinary content outside the own chat, all groups are labelled
/// alike: a basic group and a supergroup that is not a channel name "You"
/// for an outgoing last message and the sender for an incoming one; a
/// channel names no one; a private or secret chat names only "You", for an
/// outgoing message. The sender is never named for an outgoing message,
/// nor "You" for an incoming one.
pub proof fn lemma_sender_label_in_groups(content: ContentKind, is_outgoing: bool, is_forwarded: bool, kind: ChatKind)
    ensures
        content != ContentKind::Other && (kind is BasicGroup || kind matches ChatKind::Supergroup { is_channel: false, .. }) ==>
            spec_sender_label(content, false, is_outgoing, is_forwarded, kind)
                == (if is_outgoing { SenderLabel::You } else { SenderLabel::Sender }),
        (kind matches ChatKind::Supergroup { is_channel: true, .. }) ==>
            spec_sender_label(content, false, is_outgoing, is_forwarded, kind) == SenderLabel::NoLabel,
        content != ContentKind::Other && (kind is Private || kind is Secret) ==>
            spec_sender_label(content, false, is_outgoing, is_forwarded, kind)
                == (if is_outgoing { SenderLabel::You } else { SenderLabel::NoLabel }),
        forall|own: bool| #![auto] spec_sender_label(content, own, is_outgoing, is_forwarded, kind) == SenderLabel::Sender ==> !is_outgoing,
        forall|own: bool| #![auto] spec_sender_label(content, own, is_outgoing, is_forwarded, kind) == SenderLabel::You ==> is_outgoing,
        forall|own: bool| #![auto] content == ContentKind::Other ==> spec_sender_label(content, own, is_outgoing, is_forwarded, kind) == SenderLabel::NoLabel,
{
}

} // verus!
