//! The states of the chat action bar (composing, replying to a message,
//! editing a message) and what each change of state asks of the bar.

use vstd::prelude::*;

verus! {

/// What the message entry of the bar is used for.
#[derive(PartialEq, Eq, Structural, Clone, Copy, Debug)]
pub enum ChatActionBarState {
    /// Writing a new message.
    Composing,
    /// Writing an answer to the message with this identifier.
    Replying(i64),
    /// Editing the message with this identifier.
    Editing(i64),
}

impl ChatActionBarState {
    /// The state of a new bar.
    pub fn default_state() -> (s: Self)
        ensures
            s == ChatActionBarState::Composing,
    {
        ChatActionBarState::Composing
    }

    /// The message being answered, or 0.
    pub open spec fn spec_replying(self) -> i64 {
        match self {
            ChatActionBarState::Replying(id) => id,
            _ => 0,
        }
    }

    /// The message being answered, or 0 when not replying.
    pub fn replying(&self) -> (id: i64)
        ensures
            id == self.spec_replying(),
    {
        match self {
            ChatActionBarState::Replying(message_id) => *message_id,
            _ => 0,
        }
    }

    /// Whether a message is being edited.
    pub open spec fn is_editing(self) -> bool {
        self is Editing
    }
}

/// What the bar does when its state changes.
#[derive(PartialEq, Eq, Structural, Clone, Copy, Debug)]
pub struct StateChange {
    /// Whether the state changes at all; nothing else happens if not.
    pub changed: bool,
    /// Clear the message entry (editing ends).
    pub clear_entry: bool,
    /// Save what is being composed as the chat's draft (editing starts).
    pub save_draft: bool,
    /// Load the text of this message into the entry (editing starts).
    pub load_message: Option<i64>,
}

/// The effects of going from state `from` to state `to`.
pub open spec fn spec_state_change(from: ChatActionBarState, to: ChatActionBarState) -> StateChange {
    if from == to {
        StateChange { changed: false, clear_entry: false, save_draft: false, load_message: None }
    } else {
        StateChange {
            changed: true,
            clear_entry: from.is_editing(),
            save_draft: to.is_editing(),
            load_message: match to {
                ChatActionBarState::Editing(id) => Some(id),
                _ => None,
            },
        }
    }
}

/// What the bar does when its state goes from `from` to `to`: nothing when
/// they are equal; otherwise the entry is cleared when editing ends, the
/// composition is saved as draft when editing starts, and the edited
/// message is loaded.
pub fn state_change(from: ChatActionBarState, to: ChatActionBarState) -> (c: StateChange)
    ensures
        c == spec_state_change(from, to),
{
    if from == to {
        return StateChange { changed: false, clear_entry: false, save_draft: false, load_message: None };
    }
    let clear_entry = match from {
        ChatActionBarState::Editing(_) => true,
        _ => false,
    };
    let (save_draft, load_message) = match to {
        ChatActionBarState::Editing(id) => (true, Some(id)),
        _ => (false, None),
    };
    StateChange { changed: true, clear_entry, save_draft, load_message }
}

/// The state a draft message puts the bar in: replying to the draft's
/// message when it answers one (an identifier other than 0), composing
/// otherwise.
pub fn draft_state(reply_to_message_id: i64) -> (s: ChatActionBarState)
    ensures
        s == (if reply_to_message_id != 0 {
            ChatActionBarState::Replying(reply_to_message_id)
        } else {
            ChatActionBarState::Composing
        }),
{
    if reply_to_message_id != 0 {
        ChatActionBarState::Replying(reply_to_message_id)
    } else {
        ChatActionBarState::Composing
    }
}

/// What cancelling does.
#[derive(PartialEq, Eq, Structural, Clone, Copy, Debug)]
pub enum CancelAction {
    /// Load the chat's draft message (its state and text).
    LoadDraft,
    /// Go back to composing and clear the entry.
    Reset,
    /// Go back to composing.
    Compose,
}

/// Cancelling an edit loads the chat's draft if it has one and resets the
/// bar otherwise; cancelling anything else goes back to composing.
pub fn cancel_action(state: ChatActionBarState, has_draft: bool) -> (a: CancelAction)
    ensures
        a == (if state.is_editing() {
            if has_draft { CancelAction::LoadDraft } else { CancelAction::Reset }
        } else {
            CancelAction::Compose
        }),
{
    match state {
        ChatActionBarState::Editing(_) => if has_draft {
            CancelAction::LoadDraft
        } else {
            CancelAction::Reset
        },
        _ => CancelAction::Compose,
    }
}

/// The icon of the send button: a check mark while editing, an arrow
/// otherwise.
pub fn send_button_icon(state: ChatActionBarState) -> (icon: &'static str)
    ensures
        icon@ == (if state.is_editing() { "done-symbolic"@ } else { "go-up-symbolic"@ }),
{
    match state {
        ChatActionBarState::Editing(_) => "done-symbolic",
        _ => "go-up-symbolic",
    }
}

/// What the send action does.
#[derive(PartialEq, Eq, Structural, Clone, Copy, Debug)]
pub enum SendAction {
    /// Replace the text of the edited message.
    Edit(i64),
    /// Send a new message answering the given message (0 for none).
    Send { reply_to: i64 },
}

/// While editing the send action edits the message; otherwise it sends a
/// new one, answering the message being replied to.
pub fn send_action(state: ChatActionBarState) -> (a: SendAction)
    ensures
        a == (match state {
            ChatActionBarState::Editing(id) => SendAction::Edit(id),
            _ => SendAction::Send { reply_to: state.spec_replying() },
        }),
{
    match state {
        ChatActionBarState::Editing(id) => SendAction::Edit(id),
        _ => SendAction::Send { reply_to: state.replying() },
    }
}

/// The title line of the bar above the entry.
#[derive(PartialEq, Eq, Structural, Clone, Copy, Debug)]
pub enum TopBarTitle {
    /// The name of the sender of the message.
    Sender,
    /// "Edit Message".
    EditMessage,
    /// "Unknown": the message is not known.
    Unknown,
}

/// The top bar above the entry: hidden while composing; otherwise showing
/// an icon, a title, and the message (or "Deleted Message" when the
/// message is not known).
#[derive(PartialEq, Eq, Structural, Clone, Copy, Debug)]
pub enum TopBar {
    Hidden,
    Shown { icon_is_reply: bool, title: TopBarTitle, message_known: bool },
}

/// The top bar for `state`; `message_known` tells whether the message the
/// state refers to is known.
pub fn top_bar(state: ChatActionBarState, message_known: bool) -> (t: TopBar)
    ensures
        t == (match state {
            ChatActionBarState::Composing => TopBar::Hidden,
            ChatActionBarState::Replying(_) => TopBar::Shown {
                icon_is_reply: true,
                title: if message_known { TopBarTitle::Sender } else { TopBarTitle::Unknown },
                message_known,
            },
            ChatActionBarState::Editing(_) => TopBar::Shown {
                icon_is_reply: false,
                title: if message_known { TopBarTitle::EditMessage } else { TopBarTitle::Unknown },
                message_known,
            },
        }),
{
    match state {
        ChatActionBarState::Composing => TopBar::Hidden,
        ChatActionBarState::Replying(_) => TopBar::Shown {
            icon_is_reply: true,
            title: if message_known { TopBarTitle::Sender } else { TopBarTitle::Unknown },
            message_known,
        },
        ChatActionBarState::Editing(_) => TopBar::Shown {
            icon_is_reply: false,
            title: if message_known { TopBarTitle::EditMessage } else { TopBarTitle::Unknown },
            message_known,
        },
    }
}

/// Whether `c` has the Unicode `White_Space` property (`char::is_whitespace`).
pub open spec fn is_white_space(c: char) -> bool {
    ('\u{9}' <= c && c <= '\u{d}') || c == ' ' || c == '\u{85}' || c == '\u{a0}' || c == '\u{1680}'
        || ('\u{2000}' <= c && c <= '\u{200a}') || c == '\u{2028}' || c == '\u{2029}' || c == '\u{202f}'
        || c == '\u{205f}' || c == '\u{3000}'
}

pub(crate) fn white_space(c: char) -> (b: bool)
    ensures
        b == is_white_space(c),
{
    ('\u{9}' <= c && c <= '\u{d}') || c == ' ' || c == '\u{85}' || c == '\u{a0}' || c == '\u{1680}'
        || ('\u{2000}' <= c && c <= '\u{200a}') || c == '\u{2028}' || c == '\u{2029}' || c == '\u{202f}'
        || c == '\u{205f}' || c == '\u{3000}'
}

/// Whether the send action is enabled for the entry's text: it must hold a
/// character that is not white space.
pub fn can_send_text(text: &str) -> (b: bool)
    ensures
        b == exists|i: int| 0 <= i < text@.len() && !is_white_space(#[trigger] text@[i]),
{
    let cs = crate::text::chars_of(text);
    let mut i: usize = 0;
    while i < cs.len()
        invariant
            i <= cs.len(),
            cs@ == text@,
            forall|j: int| 0 <= j < i ==> is_white_space(#[trigger] cs@[j]),
        decreases cs.len() - i,
    {
        if !white_space(cs[i]) {
            return true;
        }
        i = i + 1;
    }
    false
}

/// The file extension for an image pasted from the clipboard, by its MIME
/// type: PNG and JPG images are supported, other types are not.
pub fn clipboard_image_extension(mime: &str) -> (ext: Option<&'static str>)
    ensures
        mime@ == "image/png"@ ==> (ext matches Some(e) && e@ == "png"@),
        mime@ == "image/jpg"@ ==> (ext matches Some(e) && e@ == "jpg"@),
        (mime@ != "image/png"@ && mime@ != "image/jpg"@) ==> ext is None,
{
    let cs = crate::text::chars_of(mime);
    let png = crate::text::chars_of("image/png");
    let jpg = crate::text::chars_of("image/jpg");
    proof {
        reveal_strlit("image/png");
        reveal_strlit("image/jpg");
        assert("image/png"@[6] != "image/jpg"@[6]);
    }
    if crate::text::same_chars(&cs, &png) {
        Some("png")
    } else if crate::text::same_chars(&cs, &jpg) {
        Some("jpg")
    } else {
        None
    }
}

/// The seconds during which no other chat action (such as "typing") is
/// sent after one was sent.
pub const CHAT_ACTION_COOLDOWN_SECONDS: u32 = 5;

/// Whether the bar waits before it sends another chat action.
#[derive(PartialEq, Eq, Structural, Clone, Copy, Debug)]
pub struct ChatActionCooldown {
    pub in_cooldown: bool,
}

/// A request of a chat action: whether it is sent, and the state after it.
pub open spec fn spec_request(c: ChatActionCooldown) -> (bool, ChatActionCooldown) {
    (!c.in_cooldown, ChatActionCooldown { in_cooldown: true })
}

/// The answer to a sent chat action: the seconds until the cooldown ends,
/// if it went through, and the state after it.
pub open spec fn spec_sent(c: ChatActionCooldown, ok: bool) -> (Option<u32>, ChatActionCooldown) {
    if ok {
        (Some(CHAT_ACTION_COOLDOWN_SECONDS), c)
    } else {
        (None, ChatActionCooldown { in_cooldown: false })
    }
}

impl ChatActionCooldown {
    /// A bar that may send a chat action at once.
    pub fn new() -> (c: Self)
        ensures
            !c.in_cooldown,
    {
        ChatActionCooldown { in_cooldown: false }
    }

    /// Asks to send a chat action: it is sent only out of the cooldown,
    /// which then starts at once.
    pub fn request(&mut self) -> (send: bool)
        ensures
            (send, *final(self)) == spec_request(*old(self)),
    {
        if self.in_cooldown {
            return false;
        }
        self.in_cooldown = true;
        true
    }

    /// The answer to a sent chat action: once it went through, the cooldown
    /// ends after `CHAT_ACTION_COOLDOWN_SECONDS` (the seconds to wait are
    /// returned); if it failed, the cooldown ends now.
    pub fn sent(&mut self, ok: bool) -> (wait: Option<u32>)
        ensures
            (wait, *final(self)) == spec_sent(*old(self), ok),
    {
        if ok {
            Some(CHAT_ACTION_COOLDOWN_SECONDS)
        } else {
            self.in_cooldown = false;
            None
        }
    }

    /// The wait after a chat action that went through is over.
    pub fn expired(&mut self)
        ensures
            !final(self).in_cooldown,
    {
        self.in_cooldown = false;
    }
}

/// Of two requests of chat actions with nothing between them, the second
/// is never sent; after a failed sending the next request is sent.
pub proof fn lemma_cooldown_sends_once(c: ChatActionCooldown)
    ensures
        !spec_request(spec_request(c).1).0,
        spec_request(spec_sent(spec_request(c).1, false).1).0,
        !spec_request(spec_sent(spec_request(c).1, true).1).0,
{
}

} // verus!
