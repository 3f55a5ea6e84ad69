//! The rows of a chat's history: which row an item gets, which message a
//! row marks as viewed, which widget shows a message's content, the avatar
//! beside a message and the actions a message offers.

use vstd::prelude::*;
use crate::chat::ChatKind;

verus! {

/// The formats of stickers.
#[derive(PartialEq, Eq, Structural, Clone, Copy, Debug)]
pub enum StickerFormat {
    Webp,
    Tgs,
    Webm,
}

/// The content of a message, as far as the history tells contents apart.
#[derive(PartialEq, Eq, Structural, Clone, Copy, Debug)]
pub enum MessageContent {
    Text,
    Animation,
    /// An animated emoji, with the format of its sticker if it has one.
    AnimatedEmoji { sticker: Option<StickerFormat> },
    Location,
    Photo,
    Sticker(StickerFormat),
    Document,
    Venue,
    Video,
    ExpiredPhoto,
    ExpiredVideo,
    Call,
    BasicGroupChatCreate,
    SupergroupChatCreate,
    ChatChangeTitle,
    ChatChangePhoto,
    ChatDeletePhoto,
    ChatAddMembers,
    ChatJoinByLink,
    ChatJoinByRequest,
    ChatDeleteMember,
    PinMessage,
    ScreenshotTaken,
    GameScore,
    ContactRegistered,
    /// Any other content.
    Other,
}

/// Whether a message is shown as an event of the chat (a line of text)
/// rather than as a message.
pub open spec fn spec_is_event(content: MessageContent) -> bool {
    match content {
        MessageContent::ExpiredPhoto | MessageContent::ExpiredVideo | MessageContent::Call
        | MessageContent::BasicGroupChatCreate | MessageContent::SupergroupChatCreate
        | MessageContent::ChatChangeTitle | MessageContent::ChatChangePhoto
        | MessageContent::ChatDeletePhoto | MessageContent::ChatAddMembers
        | MessageContent::ChatJoinByLink | MessageContent::ChatJoinByRequest
        | MessageContent::ChatDeleteMember | MessageContent::PinMessage
        | MessageContent::ScreenshotTaken | MessageContent::GameScore
        | MessageContent::ContactRegistered => true,
        _ => false,
    }
}

/// Whether a message is shown as an event of the chat.
pub fn is_event(content: MessageContent) -> (b: bool)
    ensures
        b == spec_is_event(content),
{
    match content {
        MessageContent::ExpiredPhoto | MessageContent::ExpiredVideo | MessageContent::Call
        | MessageContent::BasicGroupChatCreate | MessageContent::SupergroupChatCreate
        | MessageContent::ChatChangeTitle | MessageContent::ChatChangePhoto
        | MessageContent::ChatDeletePhoto | MessageContent::ChatAddMembers
        | MessageContent::ChatJoinByLink | MessageContent::ChatJoinByRequest
        | MessageContent::ChatDeleteMember | MessageContent::PinMessage
        | MessageContent::ScreenshotTaken | MessageContent::GameScore
        | MessageContent::ContactRegistered => true,
        _ => false,
    }
}

/// An item of a chat's history.
#[derive(PartialEq, Eq, Structural, Clone, Copy, Debug)]
pub enum HistoryItem {
    Message { id: i64, content: MessageContent },
    /// The divider before the messages of a day, with that day's year.
    DayDivider { year: i32 },
    /// A sponsored message, with the id of the message it stands as.
    Sponsored { message_id: i64 },
}

/// The date formats of day dividers.
#[derive(PartialEq, Eq, Structural, Clone, Copy, Debug)]
pub enum DayFormat {
    /// Month and day, for a day of the current year.
    WithoutYear,
    /// Month, day and year.
    WithYear,
}

impl DayFormat {
    /// The `strftime` format, untranslated.
    pub fn pattern(&self) -> (s: &'static str)
        ensures
            *self == DayFormat::WithoutYear ==> s@ == "%B %e"@,
            *self == DayFormat::WithYear ==> s@ == "%B %e, %Y"@,
    {
        match self {
            DayFormat::WithoutYear => "%B %e",
            DayFormat::WithYear => "%B %e, %Y",
        }
    }
}

/// The row that shows a history item.
#[derive(PartialEq, Eq, Structural, Clone, Copy, Debug)]
pub enum HistoryRow {
    /// A message row.
    Message,
    /// An event row with the description of the message's content.
    ContentEvent,
    /// An event row with the date of a day divider.
    DayEvent(DayFormat),
}

/// The row of a history item: an event row for the event messages and for
/// day dividers (with the year when the day is not of the current year), a
/// message row for other messages and for sponsored messages.
pub fn history_row(item: HistoryItem, current_year: i32) -> (r: HistoryRow)
    ensures
        item matches HistoryItem::Message { content, .. } ==> r == (if spec_is_event(content) { HistoryRow::ContentEvent } else { HistoryRow::Message }),
        item matches HistoryItem::DayDivider { year } ==> r == HistoryRow::DayEvent(if year == current_year { DayFormat::WithoutYear } else { DayFormat::WithYear }),
        item is Sponsored ==> r == HistoryRow::Message,
{
    match item {
        HistoryItem::Message { content, .. } => {
            if is_event(content) {
                HistoryRow::ContentEvent
            } else {
                HistoryRow::Message
            }
        },
        HistoryItem::DayDivider { year } => {
            if year == current_year {
                HistoryRow::DayEvent(DayFormat::WithoutYear)
            } else {
                HistoryRow::DayEvent(DayFormat::WithYear)
            }
        },
        HistoryItem::Sponsored { .. } => HistoryRow::Message,
    }
}

/// The message that a row marks as viewed while it is on screen: the
/// message's own id, or the id a sponsored message stands as; none for a
/// day divider.
pub fn viewed_message_id(item: Option<HistoryItem>) -> (r: Option<i64>)
    ensures
        item matches Some(HistoryItem::Message { id, .. }) ==> r == Some(id),
        item matches Some(HistoryItem::Sponsored { message_id }) ==> r == Some(message_id),
        item matches Some(HistoryItem::DayDivider { .. }) ==> r is None,
        item is None ==> r is None,
{
    match item {
        Some(HistoryItem::Message { id, .. }) => Some(id),
        Some(HistoryItem::Sponsored { message_id }) => Some(message_id),
        _ => None,
    }
}

/// The widgets that show the content of a message row.
#[derive(PartialEq, Eq, Structural, Clone, Copy, Debug)]
pub enum ContentWidget {
    Video,
    Sticker,
    Location,
    Photo,
    Document,
    Venue,
    Text,
}

/// Whether a sticker of this format is shown as a sticker.
pub open spec fn shown_sticker(format: StickerFormat) -> bool {
    format == StickerFormat::Webp || format == StickerFormat::Tgs
}

/// The widget that shows a message's content: animations as videos,
/// animated emoji and stickers in a shown format as stickers, locations,
/// photos, documents and venues by their own widgets, everything else
/// (videos among them) as text.
pub open spec fn spec_content_widget(content: MessageContent) -> ContentWidget {
    match content {
        MessageContent::Animation => ContentWidget::Video,
        MessageContent::AnimatedEmoji { sticker: Some(format) } if shown_sticker(format) => ContentWidget::Sticker,
        MessageContent::Location => ContentWidget::Location,
        MessageContent::Photo => ContentWidget::Photo,
        MessageContent::Sticker(format) if shown_sticker(format) => ContentWidget::Sticker,
        MessageContent::Document => ContentWidget::Document,
        MessageContent::Venue => ContentWidget::Venue,
        _ => ContentWidget::Text,
    }
}

fn is_shown_sticker(format: StickerFormat) -> (b: bool)
    ensures
        b == shown_sticker(format),
{
    match format {
        StickerFormat::Webp | StickerFormat::Tgs => true,
        StickerFormat::Webm => false,
    }
}

/// The widget that shows a message's content.
pub fn content_widget(content: MessageContent) -> (w: ContentWidget)
    ensures
        w == spec_content_widget(content),
{
    match content {
        MessageContent::Animation => ContentWidget::Video,
        MessageContent::AnimatedEmoji { sticker: Some(format) } => {
            if is_shown_sticker(format) {
                ContentWidget::Sticker
            } else {
                ContentWidget::Text
            }
        },
        MessageContent::Location => ContentWidget::Location,
        MessageContent::Photo => ContentWidget::Photo,
        MessageContent::Sticker(format) => {
            if is_shown_sticker(format) {
                ContentWidget::Sticker
            } else {
                ContentWidget::Text
            }
        },
        MessageContent::Document => ContentWidget::Document,
        MessageContent::Venue => ContentWidget::Venue,
        _ => ContentWidget::Text,
    }
}

/// Where a forwarded message came from.
#[derive(PartialEq, Eq, Clone, Debug)]
pub enum ForwardOrigin {
    User(i64),
    Chat(i64),
    Channel(i64),
    /// A user who hides the forwarding link, by the name shown.
    HiddenUser(String),
    /// An imported message, by the name of its sender.
    MessageImport(String),
}

/// The sender of a message.
#[derive(PartialEq, Eq, Structural, Clone, Copy, Debug)]
pub enum MessageSender {
    User(i64),
    Chat(i64),
}

/// What the avatar beside a message shows.
#[derive(PartialEq, Eq, Clone, Debug)]
pub enum RowAvatar {
    /// No avatar.
    Hidden,
    /// The picture of a user.
    User(i64),
    /// The picture of a chat.
    Chat(i64),
    /// The initials of a name.
    Text(String),
}

/// Whether a message has an avatar beside it: never for an outgoing one;
/// in the chat with oneself for forwarded messages; elsewhere in groups
/// (not channels).
pub open spec fn spec_show_avatar(is_outgoing: bool, is_own_chat: bool, is_forwarded: bool, chat: ChatKind) -> bool {
    if is_outgoing {
        false
    } else if is_own_chat {
        is_forwarded
    } else {
        match chat {
            ChatKind::BasicGroup { .. } => true,
            ChatKind::Supergroup { is_channel, .. } => !is_channel,
            _ => false,
        }
    }
}

/// The avatar beside a message: in the chat with oneself that of the
/// forward's origin (the name's initials for a hidden or imported sender),
/// elsewhere that of the sender; none where no avatar is shown.
pub open spec fn spec_row_avatar(is_outgoing: bool, is_own_chat: bool, forward: Option<ForwardOrigin>, chat: ChatKind, sender: MessageSender) -> RowAvatar {
    if !spec_show_avatar(is_outgoing, is_own_chat, forward is Some, chat) {
        RowAvatar::Hidden
    } else if is_own_chat {
        match forward {
            Some(ForwardOrigin::User(id)) => RowAvatar::User(id),
            Some(ForwardOrigin::Chat(id)) => RowAvatar::Chat(id),
            Some(ForwardOrigin::Channel(id)) => RowAvatar::Chat(id),
            Some(ForwardOrigin::HiddenUser(name)) => RowAvatar::Text(name),
            Some(ForwardOrigin::MessageImport(name)) => RowAvatar::Text(name),
            None => RowAvatar::Hidden,
        }
    } else {
        match sender {
            MessageSender::User(id) => RowAvatar::User(id),
            MessageSender::Chat(id) => RowAvatar::Chat(id),
        }
    }
}

/// The avatar beside a message.
pub fn row_avatar(is_outgoing: bool, is_own_chat: bool, forward: Option<ForwardOrigin>, chat: ChatKind, sender: MessageSender) -> (r: RowAvatar)
    ensures
        r == spec_row_avatar(is_outgoing, is_own_chat, forward, chat, sender),
{
    let show: bool = if is_outgoing {
        false
    } else if is_own_chat {
        forward.is_some()
    } else {
        match chat {
            ChatKind::BasicGroup { .. } => true,
            ChatKind::Supergroup { is_channel, .. } => !is_channel,
            _ => false,
        }
    };
    if !show {
        return RowAvatar::Hidden;
    }
    if is_own_chat {
        match forward {
            Some(ForwardOrigin::User(id)) => RowAvatar::User(id),
            Some(ForwardOrigin::Chat(id)) => RowAvatar::Chat(id),
            Some(ForwardOrigin::Channel(id)) => RowAvatar::Chat(id),
            Some(ForwardOrigin::HiddenUser(name)) => RowAvatar::Text(name),
            Some(ForwardOrigin::MessageImport(name)) => RowAvatar::Text(name),
            None => RowAvatar::Hidden,
        }
    } else {
        match sender {
            MessageSender::User(id) => RowAvatar::User(id),
            MessageSender::Chat(id) => RowAvatar::Chat(id),
        }
    }
}

/// What a message row lets one do with its message.
#[derive(PartialEq, Eq, Structural, Clone, Copy, Debug)]
pub struct MessageActions {
    pub reply: bool,
    pub edit: bool,
    pub delete: bool,
    pub revoke_delete: bool,
}

/// What the server lets one do with a message.
#[derive(PartialEq, Eq, Structural, Clone, Copy, Debug)]
pub struct MessagePermissions {
    pub can_reply: bool,
    pub can_edit: bool,
    pub can_be_deleted_only_for_self: bool,
    pub can_be_deleted_for_all_users: bool,
}

/// The actions of a message row: those the message allows, none for a row
/// that shows no message of the chat (a sponsored one).
pub fn message_actions(message: Option<MessagePermissions>) -> (r: MessageActions)
    ensures
        message is None ==> r == (MessageActions { reply: false, edit: false, delete: false, revoke_delete: false }),
        message matches Some(p) ==> r == (MessageActions {
            reply: p.can_reply,
            edit: p.can_edit,
            delete: p.can_be_deleted_only_for_self,
            revoke_delete: p.can_be_deleted_for_all_users,
        }),
{
    match message {
        Some(p) => MessageActions {
            reply: p.can_reply,
            edit: p.can_edit,
            delete: p.can_be_deleted_only_for_self,
            revoke_delete: p.can_be_deleted_for_all_users,
        },
        None => MessageActions { reply: false, edit: false, delete: false, revoke_delete: false },
    }
}

/// The kinds of stickers.
#[derive(PartialEq, Eq, Structural, Clone, Copy, Debug)]
pub enum StickerType {
    Regular,
    Mask,
    /// A custom emoji; whether it is repainted in the text's color.
    CustomEmoji { needs_repainting: bool },
}

/// A message shown as a sticker.
#[derive(PartialEq, Eq, Structural, Clone, Copy, Debug)]
pub enum StickerMessage {
    Sticker(StickerType),
    AnimatedEmoji(StickerType),
}

/// The longer side of a sticker.
pub const STICKER_SIZE: i32 = 176;
/// The longer side of an animated emoji.
pub const EMOJI_SIZE: i32 = 112;

/// How a sticker row shows its sticker.
#[derive(PartialEq, Eq, Structural, Clone, Copy, Debug)]
pub struct StickerLayout {
    pub looped: bool,
    pub needs_repainting: bool,
    pub size: i32,
    pub margin_bottom: i32,
}

/// How a sticker row shows its sticker: stickers loop at full size; an
/// animated emoji is smaller, with a margin below, and loops only when it
/// is a custom emoji; custom emoji that need it are repainted.
pub fn sticker_layout(message: StickerMessage) -> (r: StickerLayout)
    ensures
        message matches StickerMessage::Sticker(t) ==> r == (StickerLayout {
            looped: true,
            needs_repainting: t matches StickerType::CustomEmoji { needs_repainting: true },
            size: STICKER_SIZE,
            margin_bottom: 0,
        }),
        message matches StickerMessage::AnimatedEmoji(t) ==> r == (StickerLayout {
            looped: t is CustomEmoji,
            needs_repainting: t matches StickerType::CustomEmoji { needs_repainting: true },
            size: EMOJI_SIZE,
            margin_bottom: 8,
        }),
{
    let (t, looped, is_emoji) = match message {
        StickerMessage::Sticker(t) => (t, true, false),
        StickerMessage::AnimatedEmoji(t) => {
            let custom: bool = match t {
                StickerType::CustomEmoji { .. } => true,
                _ => false,
            };
            (t, custom, true)
        },
    };
    let needs_repainting: bool = match t {
        StickerType::CustomEmoji { needs_repainting } => needs_repainting,
        _ => false,
    };
    if is_emoji {
        StickerLayout { looped, needs_repainting, size: EMOJI_SIZE, margin_bottom: 8 }
    } else {
        StickerLayout { looped, needs_repainting, size: STICKER_SIZE, margin_bottom: 0 }
    }
}

/// Where a sticker row puts the message a sticker replies to.
#[derive(PartialEq, Eq, Structural, Clone, Copy, Debug)]
pub enum ReplySide {
    /// No reply is shown.
    NoReply,
    /// Before the sticker, for an outgoing message.
    BeforeSticker,
    /// After the sticker, for an incoming message.
    AfterSticker,
}

/// Where a sticker row puts the message a sticker replies to: on the side
/// away from the sticker, when it replies to a message.
pub fn reply_side(replies_to_message: bool, is_outgoing: bool) -> (r: ReplySide)
    ensures
        !replies_to_message ==> r == ReplySide::NoReply,
        replies_to_message && is_outgoing ==> r == ReplySide::BeforeSticker,
        replies_to_message && !is_outgoing ==> r == ReplySide::AfterSticker,
{
    if !replies_to_message {
        ReplySide::NoReply
    } else if is_outgoing {
        ReplySide::BeforeSticker
    } else {
        ReplySide::AfterSticker
    }
}

/// Every service message is shown as an event of the chat: an expired
/// photo or video, a call, a group created, a title or photo changed or
/// deleted, members added, a member joined by link or by request, a member
/// removed, a message pinned, a screenshot taken, a game score and a
/// contact registered. Messages with content of their own (text, media,
/// stickers, locations, venues, documents) are shown as messages.
pub proof fn lemma_service_messages_are_events(id: i64, year: i32)
    ensures
        spec_is_event(MessageContent::ExpiredPhoto),
        spec_is_event(MessageContent::ExpiredVideo),
        spec_is_event(MessageContent::Call),
        spec_is_event(MessageContent::BasicGroupChatCreate),
        spec_is_event(MessageContent::SupergroupChatCreate),
        spec_is_event(MessageContent::ChatChangeTitle),
        spec_is_event(MessageContent::ChatChangePhoto),
        spec_is_event(MessageContent::ChatDeletePhoto),
        spec_is_event(MessageContent::ChatAddMembers),
        spec_is_event(MessageContent::ChatJoinByLink),
        spec_is_event(MessageContent::ChatJoinByRequest),
        spec_is_event(MessageContent::ChatDeleteMember),
        spec_is_event(MessageContent::PinMessage),
        spec_is_event(MessageContent::ScreenshotTaken),
        spec_is_event(MessageContent::GameScore),
        spec_is_event(MessageContent::ContactRegistered),
        forall|s: StickerFormat| #![auto] !spec_is_event(MessageContent::Sticker(s)),
        forall|s: Option<StickerFormat>| #![auto] !spec_is_event(MessageContent::AnimatedEmoji { sticker: s }),
        !spec_is_event(MessageContent::Text),
        !spec_is_event(MessageContent::Animation),
        !spec_is_event(MessageContent::Location),
        !spec_is_event(MessageContent::Photo),
        !spec_is_event(MessageContent::Document),
        !spec_is_event(MessageContent::Venue),
        !spec_is_event(MessageContent::Video),
        !spec_is_event(MessageContent::Other),
        forall|c: MessageContent| spec_content_widget(c) != ContentWidget::Text ==> !spec_is_event(c),
{
}

} // verus!
