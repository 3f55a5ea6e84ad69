//! The decisions of the login pages: what is usable while a request runs,
//! the link that sends the code again, and what follows the answers to the
//! requests and dialogs of the login.

use vstd::prelude::*;
use crate::message::AuthenticationCodeType;

verus! {

/// What a button shows.
#[derive(PartialEq, Eq, Structural, Clone, Copy, Debug)]
pub enum ButtonPage {
    Label,
    Spinner,
}

/// The controls of a login page with one request at a time (the code, the
/// password and the registration pages).
#[derive(PartialEq, Eq, Structural, Clone, Copy, Debug)]
pub struct PageControls {
    /// Whether the inputs can be edited.
    pub inputs_sensitive: bool,
    /// What the buttons that send a request show.
    pub buttons: ButtonPage,
    /// Whether the page's actions are enabled.
    pub actions_enabled: bool,
}

/// The controls of a page while a request runs (frozen) and otherwise: the
/// inputs and actions are disabled and the buttons spin while it runs.
pub fn page_controls(freeze: bool) -> (r: PageControls)
    ensures
        r.inputs_sensitive == !freeze,
        r.buttons == (if freeze { ButtonPage::Spinner } else { ButtonPage::Label }),
        r.actions_enabled == !freeze,
{
    PageControls {
        inputs_sensitive: !freeze,
        buttons: if freeze { ButtonPage::Spinner } else { ButtonPage::Label },
        actions_enabled: !freeze,
    }
}

/// The controls of the phone number page.
#[derive(PartialEq, Eq, Structural, Clone, Copy, Debug)]
pub struct PhoneNumberControls {
    pub input_sensitive: bool,
    pub next_button: ButtonPage,
    pub qr_code_spinning: bool,
    pub next_enabled: bool,
    pub qr_code_enabled: bool,
}

/// The controls of the phone number page while a request runs (`qr`: the
/// request of a QR code, else the sending of the number): the input and the
/// next action are disabled, the button of the running request spins, and
/// the QR code can still be asked for while the number is sent.
pub fn phone_number_controls(qr: bool, freeze: bool) -> (r: PhoneNumberControls)
    ensures
        r.input_sensitive == !freeze,
        r.next_button == (if !qr && freeze { ButtonPage::Spinner } else { ButtonPage::Label }),
        r.qr_code_spinning == (qr && freeze),
        r.next_enabled == !freeze,
        r.qr_code_enabled == (!qr || !freeze),
{
    PhoneNumberControls {
        input_sensitive: !freeze,
        next_button: if !qr && freeze { ButtonPage::Spinner } else { ButtonPage::Label },
        qr_code_spinning: qr && freeze,
        next_enabled: !freeze,
        qr_code_enabled: !qr || !freeze,
    }
}

/// The link that sends the authentication code again.
#[derive(PartialEq, Eq, Structural, Clone, Copy, Debug)]
pub enum ResendLink {
    /// Hidden: the code cannot be sent another way.
    Hidden,
    /// "Send code via {type}"
    Via(AuthenticationCodeType),
    /// "Send code via {type} (may still arrive within {countdown} seconds)"
    ViaWithCountdown(AuthenticationCodeType, i32),
}

/// The link that sends the code again: shown when there is a next way to
/// send it, with the seconds the current code may still take while they
/// run.
pub fn resend_link(next_type: Option<AuthenticationCodeType>, countdown: i32) -> (r: ResendLink)
    ensures
        next_type is None ==> r == ResendLink::Hidden,
        next_type matches Some(t) ==> r == (if countdown > 0 { ResendLink::ViaWithCountdown(t, countdown) } else { ResendLink::Via(t) }),
{
    match next_type {
        None => ResendLink::Hidden,
        Some(t) => if countdown > 0 {
            ResendLink::ViaWithCountdown(t, countdown)
        } else {
            ResendLink::Via(t)
        },
    }
}

/// The answers to the sending of a phone number.
#[derive(PartialEq, Eq, Structural, Clone, Copy, Debug)]
pub enum PhoneNumberAnswer {
    Accepted,
    /// The number belongs to a session that is logged in already.
    AlreadyLoggedIn,
    Error,
}

/// What the phone number page does once the number is sent.
#[derive(PartialEq, Eq, Structural, Clone, Copy, Debug)]
pub enum PhoneNumberStep {
    /// Nothing more (the next step of the login follows).
    Nothing,
    /// Switch to the session logged in already, and log this client out.
    SwitchAndLogOut,
    /// Show the error and select the number again.
    ShowErrorAndFocus,
}

/// What follows the sending of a phone number; nothing when the request was
/// cancelled (`None`).
pub fn phone_number_step(answer: Option<PhoneNumberAnswer>) -> (r: PhoneNumberStep)
    ensures
        answer matches Some(PhoneNumberAnswer::AlreadyLoggedIn) ==> r == PhoneNumberStep::SwitchAndLogOut,
        answer matches Some(PhoneNumberAnswer::Error) ==> r == PhoneNumberStep::ShowErrorAndFocus,
        (answer is None || answer == Some(PhoneNumberAnswer::Accepted)) ==> r == PhoneNumberStep::Nothing,
{
    match answer {
        Some(PhoneNumberAnswer::AlreadyLoggedIn) => PhoneNumberStep::SwitchAndLogOut,
        Some(PhoneNumberAnswer::Error) => PhoneNumberStep::ShowErrorAndFocus,
        _ => PhoneNumberStep::Nothing,
    }
}

/// The answers to the sending of a password recovery code.
#[derive(PartialEq, Eq, Structural, Clone, Copy, Debug)]
pub enum RecoveryCodeAnswer {
    Accepted,
    Expired,
    Error,
}

/// What the password page does after a recovery code was sent.
#[derive(PartialEq, Eq, Structural, Clone, Copy, Debug)]
pub enum RecoveryCodeStep {
    Nothing,
    /// Ask for a new code, the sent one having expired.
    RequestNewCode,
    /// "Failed to send password code: {error}"
    ShowError,
}

/// What follows the sending of a recovery code.
pub fn recovery_code_step(answer: RecoveryCodeAnswer) -> (r: RecoveryCodeStep)
    ensures
        answer == RecoveryCodeAnswer::Accepted ==> r == RecoveryCodeStep::Nothing,
        answer == RecoveryCodeAnswer::Expired ==> r == RecoveryCodeStep::RequestNewCode,
        answer == RecoveryCodeAnswer::Error ==> r == RecoveryCodeStep::ShowError,
{
    match answer {
        RecoveryCodeAnswer::Accepted => RecoveryCodeStep::Nothing,
        RecoveryCodeAnswer::Expired => RecoveryCodeStep::RequestNewCode,
        RecoveryCodeAnswer::Error => RecoveryCodeStep::ShowError,
    }
}

/// The notes shown when a new recovery code was asked for.
#[derive(PartialEq, Eq, Structural, Clone, Copy, Debug)]
pub enum NewCodeNote {
    /// "Code expired. A new one has been sent you."
    Sent,
    /// "Code expired. Could not sent a new one: {error}"
    Failed,
}

/// The note shown once a new recovery code was asked for.
pub fn new_code_note(sent: bool) -> (r: NewCodeNote)
    ensures
        r == (if sent { NewCodeNote::Sent } else { NewCodeNote::Failed }),
{
    if sent { NewCodeNote::Sent } else { NewCodeNote::Failed }
}

/// The dialog of the terms of service.
#[derive(PartialEq, Eq, Structural, Clone, Copy, Debug)]
pub enum TosDialog {
    /// "Do you accept the Terms of Service?", answered "no" (the default)
    /// or "yes".
    Accept,
    /// "Terms of Service", closed by "ok".
    Show,
}

/// The dialog of the terms of service: asking for acceptance when the user
/// has to accept them, else only showing them.
pub fn tos_dialog(user_needs_to_accept: bool) -> (r: TosDialog)
    ensures
        r == (if user_needs_to_accept { TosDialog::Accept } else { TosDialog::Show }),
{
    if user_needs_to_accept { TosDialog::Accept } else { TosDialog::Show }
}

/// What the registration page does with the answer of the dialog.
#[derive(PartialEq, Eq, Structural, Clone, Copy, Debug)]
pub enum TosStep {
    /// The terms are declined: the page is usable again.
    Unfreeze,
    /// The terms are accepted: the registration goes on.
    Register,
    /// The terms were only shown.
    Nothing,
}

/// What follows the answer to the dialog of the terms of service: "no"
/// declines, "yes" accepts, any other answer does nothing.
pub fn tos_step(response: &str) -> (r: TosStep)
    ensures
        response@ == "no"@ ==> r == TosStep::Unfreeze,
        response@ == "yes"@ ==> r == TosStep::Register,
        response@ != "no"@ && response@ != "yes"@ ==> r == TosStep::Nothing,
{
    let answer: String = response.to_owned();
    let no: String = "no".to_owned();
    let yes: String = "yes".to_owned();
    proof {
        reveal_strlit("no");
        reveal_strlit("yes");
        assert("no"@.len() != "yes"@.len());
    }
    if answer == no {
        TosStep::Unfreeze
    } else if answer == yes {
        TosStep::Register
    } else {
        TosStep::Nothing
    }
}

/// What the password page does with the answer to the dialog that deletes
/// the account.
#[derive(PartialEq, Eq, Structural, Clone, Copy, Debug)]
pub enum DeleteAccountStep {
    /// Freeze the page and delete the account.
    Delete,
    /// Go back to the password.
    FocusPassword,
}

/// What follows the answer to the dialog that deletes the account: "delete"
/// deletes it, any other answer goes back to the password.
pub fn delete_account_step(response: &str) -> (r: DeleteAccountStep)
    ensures
        r == (if response@ == "delete"@ { DeleteAccountStep::Delete } else { DeleteAccountStep::FocusPassword }),
{
    let answer: String = response.to_owned();
    let delete: String = "delete".to_owned();
    if answer == delete {
        DeleteAccountStep::Delete
    } else {
        DeleteAccountStep::FocusPassword
    }
}

/// Whether the answer to the dialog that resets the registration resets
/// it: only "reset" does.
pub fn resets_registration(response: &str) -> (b: bool)
    ensures
        b == (response@ == "reset"@),
{
    let answer: String = response.to_owned();
    let reset: String = "reset".to_owned();
    answer == reset
}

} // verus!
