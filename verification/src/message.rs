//! The message rows of the chat history: the bubble's style and sender
//! line, the indicators (edited mark, time, sending state, replies), and
//! the label text.

use vstd::prelude::*;
use crate::chat::ChatKind;
use crate::sidebar::SendingState;
use crate::text::{chars_of, string_from_chars, push_str, push_chars};
use crate::format::{decimal, push_decimal};
use std::collections::hash_map::DefaultHasher;
use std::hash::Hasher;
use vstd::std_specs::hash::DefaultHasherAdditionalSpecFns;

verus! {

/// The number of style classes that color sender names.
pub const SENDER_COLOR_COUNT: usize = 7;

/// The style classes that color sender names.
pub fn sender_color_class(index: usize) -> (s: &'static str)
    requires
        index < SENDER_COLOR_COUNT,
    ensures
        index == 0 ==> s@ == "sender-text-red"@,
        index == 1 ==> s@ == "sender-text-orange"@,
        index == 2 ==> s@ == "sender-text-violet"@,
        index == 3 ==> s@ == "sender-text-green"@,
        index == 4 ==> s@ == "sender-text-cyan"@,
        index == 5 ==> s@ == "sender-text-blue"@,
        index == 6 ==> s@ == "sender-text-pink"@,
{
    if index == 0 {
        "sender-text-red"
    } else if index == 1 {
        "sender-text-orange"
    } else if index == 2 {
        "sender-text-violet"
    } else if index == 3 {
        "sender-text-green"
    } else if index == 4 {
        "sender-text-cyan"
    } else if index == 5 {
        "sender-text-blue"
    } else {
        "sender-text-pink"
    }
}

/// The writes that hashing the string `label` (`Hash for str`) makes to a
/// hasher, each write a sequence of bytes. Which bytes they are is left to
/// this name; they depend on the string alone.
pub uninterp spec fn str_hash_writes(label: Seq<char>) -> Seq<Seq<u8>>;

/// Feeds a string to a hasher (`Hash for str`, that is
/// `std::hash::Hash::hash` on a `str`). The contract claims that this
/// appends to the writes the hasher has seen the writes named by
/// `str_hash_writes`, which depend on the string alone; which bytes they
/// hold is not stated.
#[verifier::external_body]
fn hash_str(label: &str, hasher: &mut DefaultHasher)
    ensures
        final(hasher)@ == old(hasher)@ + str_hash_writes(label@),
{
    std::hash::Hash::hash(label, hasher)
}

/// The hash of a label: what a new `DefaultHasher` finishes with after
/// the label was hashed into it, taken as a signed number.
pub open spec fn label_hash(label: Seq<char>) -> i64 {
    DefaultHasher::spec_finish(Seq::<Seq<u8>>::empty() + str_hash_writes(label)) as i64
}

/// A hash of a label, as a signed number.
fn hash_label(label: &str) -> (h: i64)
    ensures
        h == label_hash(label@),
{
    let mut hasher = DefaultHasher::new();
    hash_str(label, &mut hasher);
    hasher.finish() as i64
}

/// The color of a sender: picked by the sender's identifier when known,
/// otherwise by the hash of the shown name, as an index among the color
/// classes.
pub fn sender_color_index(sender_id: Option<i64>, label: &str) -> (i: usize)
    ensures
        i < SENDER_COLOR_COUNT,
        sender_id matches Some(id) ==> i == (id as usize) % SENDER_COLOR_COUNT,
        sender_id is None ==> i == (label_hash(label@) as usize) % SENDER_COLOR_COUNT,
{
    let key = match sender_id {
        Some(id) => id,
        None => hash_label(label),
    };
    (key as usize) % SENDER_COLOR_COUNT
}

/// The color index for a sponsored message, by the hash of its sponsor
/// label.
pub fn sponsor_color_index(sponsor_label: &str) -> (i: usize)
    ensures
        i == (label_hash(sponsor_label@) as usize) % SENDER_COLOR_COUNT,
        i < SENDER_COLOR_COUNT,
{
    let h = hash_label(sponsor_label);
    sender_color_index(Some(h), sponsor_label)
}

/// Whose name a bubble shows above the message.
#[derive(PartialEq, Eq, Structural, Clone, Copy, Debug)]
pub enum BubbleSender {
    /// No sender line.
    Hidden,
    /// The sender line, colored by this identifier (by the name's hash when
    /// there is none).
    Shown(Option<i64>),
}

/// What a bubble needs of its message.
#[derive(PartialEq, Eq, Structural, Clone, Copy, Debug)]
pub struct BubbleMessage {
    pub is_outgoing: bool,
    pub is_own_chat: bool,
    pub chat: ChatKind,
    /// The identifier of the sender (a user or a chat).
    pub sender_id: i64,
    /// Whether the sender is a chat (a channel posting, say).
    pub sender_is_chat: bool,
    /// The identifier of the origin of a forwarded message, if it has one.
    pub forward_origin_id: Option<i64>,
}

/// The sender line: hidden when asked; in the own chat, for incoming
/// (forwarded) messages, by the origin; own messages show it only when sent
/// as a chat; incoming messages of groups show the sender.
pub open spec fn spec_bubble_sender(m: BubbleMessage, force_hide_sender: bool) -> BubbleSender {
    if force_hide_sender {
        BubbleSender::Hidden
    } else if m.is_own_chat {
        if m.is_outgoing {
            BubbleSender::Hidden
        } else {
            BubbleSender::Shown(m.forward_origin_id)
        }
    } else if m.is_outgoing {
        if m.sender_is_chat {
            BubbleSender::Shown(Some(m.sender_id))
        } else {
            BubbleSender::Hidden
        }
    } else {
        match m.chat {
            ChatKind::BasicGroup { .. } | ChatKind::Supergroup { .. } => BubbleSender::Shown(Some(m.sender_id)),
            _ => BubbleSender::Hidden,
        }
    }
}

/// Decides the sender line of a bubble.
pub fn bubble_sender(m: BubbleMessage, force_hide_sender: bool) -> (s: BubbleSender)
    ensures
        s == spec_bubble_sender(m, force_hide_sender),
{
    if force_hide_sender {
        BubbleSender::Hidden
    } else if m.is_own_chat {
        if m.is_outgoing {
            BubbleSender::Hidden
        } else {
            BubbleSender::Shown(m.forward_origin_id)
        }
    } else if m.is_outgoing {
        if m.sender_is_chat {
            BubbleSender::Shown(Some(m.sender_id))
        } else {
            BubbleSender::Hidden
        }
    } else {
        match m.chat {
            ChatKind::BasicGroup { .. } | ChatKind::Supergroup { .. } => BubbleSender::Shown(Some(m.sender_id)),
            _ => BubbleSender::Hidden,
        }
    }
}

/// Whether a bubble has the outgoing style: own messages, except in
/// channels.
pub fn bubble_is_outgoing(is_outgoing: bool, chat: ChatKind) -> (b: bool)
    ensures
        b == (is_outgoing && !(chat matches ChatKind::Supergroup { is_channel: true, .. })),
{
    let is_channel = match chat {
        ChatKind::Supergroup { is_channel, .. } => is_channel,
        _ => false,
    };
    is_outgoing && !is_channel
}

/// The icon of the sending state of a message.
#[derive(PartialEq, Eq, Structural, Clone, Copy, Debug)]
pub enum SendingStateIcon {
    Hidden,
    Failed,
    Pending,
    Read,
    Unread,
}

impl SendingStateIcon {
    /// The icon's name, if it is shown.
    pub fn icon_name(&self) -> (s: Option<&'static str>)
        ensures
            *self == SendingStateIcon::Hidden <==> s is None,
            *self == SendingStateIcon::Failed ==> s->0@ == "message-failed-symbolic"@,
            *self == SendingStateIcon::Pending ==> s->0@ == "message-pending-symbolic"@,
            *self == SendingStateIcon::Read ==> s->0@ == "message-read-symbolic"@,
            *self == SendingStateIcon::Unread ==> s->0@ == "message-unread-left-symbolic"@,
    {
        match self {
            SendingStateIcon::Hidden => None,
            SendingStateIcon::Failed => Some("message-failed-symbolic"),
            SendingStateIcon::Pending => Some("message-pending-symbolic"),
            SendingStateIcon::Read => Some("message-read-symbolic"),
            SendingStateIcon::Unread => Some("message-unread-left-symbolic"),
        }
    }
}

/// The sending state of a message: shown for own messages only; failed or
/// pending while being sent; read in the own chat or once the other side
/// has read up to it; unread otherwise.
pub fn sending_state_icon(
    is_outgoing: bool,
    sending_state: Option<SendingState>,
    is_own_chat: bool,
    message_id: i64,
    last_read_outbox_message_id: i64,
) -> (i: SendingStateIcon)
    ensures
        i == (if !is_outgoing {
            SendingStateIcon::Hidden
        } else {
            match sending_state {
                Some(SendingState::Failed) => SendingStateIcon::Failed,
                Some(SendingState::Pending) => SendingStateIcon::Pending,
                None => if is_own_chat || message_id <= last_read_outbox_message_id {
                    SendingStateIcon::Read
                } else {
                    SendingStateIcon::Unread
                },
            }
        }),
{
    if !is_outgoing {
        return SendingStateIcon::Hidden;
    }
    match sending_state {
        Some(SendingState::Failed) => SendingStateIcon::Failed,
        Some(SendingState::Pending) => SendingStateIcon::Pending,
        None => if is_own_chat || message_id <= last_read_outbox_message_id {
            SendingStateIcon::Read
        } else {
            SendingStateIcon::Unread
        },
    }
}

/// The reply counter of a message: hidden in channels and without replies,
/// the count in decimal otherwise.
pub fn reply_count_label(is_channel_message: bool, reply_count: i32) -> (r: Option<String>)
    ensures
        (is_channel_message || reply_count <= 0) ==> r is None,
        (!is_channel_message && reply_count > 0) ==> (r matches Some(s) && s@ == decimal(reply_count as int)),
{
    if is_channel_message || reply_count <= 0 {
        None
    } else {
        let mut out: Vec<char> = Vec::new();
        push_decimal(&mut out, reply_count as i64);
        Some(string_from_chars(&out))
    }
}

/// The information label of a message: its time, preceded by the (already
/// translated) word for "edited" when it was edited, unless it is a
/// location (which is edited as it moves).
pub fn message_info_label(is_edited: bool, is_location: bool, edited_word: &str, time: &str) -> (s: String)
    ensures
        s@ == (if is_edited && !is_location { edited_word@ + seq![' '] + time@ } else { time@ }),
{
    if is_edited && !is_location {
        let mut out = chars_of(edited_word);
        out.push(' ');
        push_str(&mut out, time);
        string_from_chars(&out)
    } else {
        let cs = chars_of(time);
        string_from_chars(&cs)
    }
}

/// The character that holds the place of the indicators at the end of a
/// message's text.
pub const OBJECT_REPLACEMENT_CHARACTER: char = '\u{fffc}';

/// The text of a message label: when the label carries the indicators and
/// the text runs in the widget's direction, a placeholder character is
/// appended for them.
pub fn label_text(text: &str, has_indicators: bool, opposite_direction: bool) -> (s: String)
    ensures
        s@ == (if has_indicators && !opposite_direction { text@.push(OBJECT_REPLACEMENT_CHARACTER) } else { text@ }),
{
    let mut out = chars_of(text);
    if has_indicators && !opposite_direction {
        out.push(OBJECT_REPLACEMENT_CHARACTER);
    }
    string_from_chars(&out)
}

/// The base direction of a text or widget.
#[derive(PartialEq, Eq, Structural, Clone, Copy, Debug)]
pub enum Direction {
    LeftToRight,
    RightToLeft,
    Neutral,
}

/// Whether a text runs against its widget: right-to-left text in a
/// left-to-right widget, or the other way round.
pub fn is_opposite_text_direction(text: Direction, widget: Direction) -> (b: bool)
    ensures
        b == ((text == Direction::RightToLeft && widget == Direction::LeftToRight)
            || (text == Direction::LeftToRight && widget == Direction::RightToLeft)),
{
    (text == Direction::RightToLeft && widget == Direction::LeftToRight)
        || (text == Direction::LeftToRight && widget == Direction::RightToLeft)
}

/// Where the indicators of a bubble move.
#[derive(PartialEq, Eq, Structural, Clone, Copy, Debug)]
pub enum IndicatorsMove {
    /// From the label onto the overlay (the label became empty).
    ToOverlay,
    /// From the overlay into the label (the label got text).
    ToLabel,
    Stay,
}

/// The indicators sit in the label when it has text and over the bubble
/// when it has none.
pub fn indicators_move(label_is_empty: bool, label_has_indicators: bool) -> (m: IndicatorsMove)
    ensures
        m == (if label_is_empty && label_has_indicators {
            IndicatorsMove::ToOverlay
        } else if !label_is_empty && !label_has_indicators {
            IndicatorsMove::ToLabel
        } else {
            IndicatorsMove::Stay
        }),
{
    if label_is_empty && label_has_indicators {
        IndicatorsMove::ToOverlay
    } else if !label_is_empty && !label_has_indicators {
        IndicatorsMove::ToLabel
    } else {
        IndicatorsMove::Stay
    }
}

/// The icon of a venue, by its type: only food has one.
pub fn venue_icon_name(venue_type: &str) -> (s: Option<&'static str>)
    ensures
        venue_type@ == "food/default"@ ==> (s matches Some(n) && n@ == "emoji-food-symbolic"@),
        venue_type@ != "food/default"@ ==> s is None,
{
    let cs = chars_of(venue_type);
    let food = chars_of("food/default");
    if crate::text::same_chars(&cs, &food) {
        Some("emoji-food-symbolic")
    } else {
        None
    }
}

/// The ways an authentication code can arrive.
#[derive(PartialEq, Eq, Structural, Clone, Copy, Debug)]
pub enum AuthenticationCodeType {
    TelegramMessage,
    Sms,
    FirebaseAndroid,
    FirebaseIos,
    Call,
    FlashCall,
    MissedCall,
    Fragment,
}

/// The (untranslated) name of the way an authentication code arrives; the
/// SMS kinds share one name.
pub fn auth_code_type_name(code_type: AuthenticationCodeType) -> (s: &'static str)
    ensures
        code_type == AuthenticationCodeType::TelegramMessage ==> s@ == "Telegram"@,
        (code_type == AuthenticationCodeType::Sms || code_type == AuthenticationCodeType::FirebaseAndroid
            || code_type == AuthenticationCodeType::FirebaseIos) ==> s@ == "SMS"@,
        code_type == AuthenticationCodeType::Call ==> s@ == "Call"@,
        code_type == AuthenticationCodeType::FlashCall ==> s@ == "Flash Call"@,
        code_type == AuthenticationCodeType::MissedCall ==> s@ == "Missed Call"@,
        code_type == AuthenticationCodeType::Fragment ==> s@ == "Fragment"@,
{
    match code_type {
        AuthenticationCodeType::TelegramMessage => "Telegram",
        AuthenticationCodeType::Sms | AuthenticationCodeType::FirebaseAndroid | AuthenticationCodeType::FirebaseIos => "SMS",
        AuthenticationCodeType::Call => "Call",
        AuthenticationCodeType::FlashCall => "Flash Call",
        AuthenticationCodeType::MissedCall => "Missed Call",
        AuthenticationCodeType::Fragment => "Fragment",
    }
}

/// The text of a text message renders its formatted text; any other
/// message shows a note in italics (`note` is its translated text).
pub fn message_text_markup(formatted: Option<&crate::markup::FormattedText>, note: &str) -> (s: String)
    requires
        formatted matches Some(f) ==> f.text@.len() <= usize::MAX / 2,
    ensures
        formatted matches Some(f) ==> s@ == crate::markup::rendered(f.entities@, f.text@),
        formatted is None ==> s@ == "<i>"@ + note@ + "</i>"@,
{
    match formatted {
        Some(f) => crate::markup::parse_formatted_text(f),
        None => {
            let mut out: Vec<char> = Vec::new();
            push_str(&mut out, "<i>");
            push_str(&mut out, note);
            push_str(&mut out, "</i>");
            assert(out@ =~= "<i>"@ + note@ + "</i>"@);
            string_from_chars(&out)
        },
    }
}

} // verus!
