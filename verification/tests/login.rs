use paper_plane::login::{
    delete_account_step, new_code_note, page_controls, phone_number_controls, phone_number_step,
    recovery_code_step, resend_link, resets_registration, tos_dialog, tos_step, ButtonPage,
    DeleteAccountStep, NewCodeNote, PageControls, PhoneNumberAnswer, PhoneNumberStep,
    RecoveryCodeAnswer, RecoveryCodeStep, ResendLink, TosDialog, TosStep,
};
use paper_plane::message::AuthenticationCodeType;

#[test]
fn frozen_pages() {
    assert_eq!(page_controls(true), PageControls { inputs_sensitive: false, buttons: ButtonPage::Spinner, actions_enabled: false });
    assert_eq!(page_controls(false), PageControls { inputs_sensitive: true, buttons: ButtonPage::Label, actions_enabled: true });
    let sending = phone_number_controls(false, true);
    assert_eq!(sending.next_button, ButtonPage::Spinner);
    assert!(!sending.qr_code_spinning);
    assert!(sending.qr_code_enabled);
    assert!(!sending.next_enabled);
    let qr = phone_number_controls(true, true);
    assert_eq!(qr.next_button, ButtonPage::Label);
    assert!(qr.qr_code_spinning);
    assert!(!qr.qr_code_enabled);
    assert!(!qr.input_sensitive);
}

#[test]
fn resend_links() {
    assert_eq!(resend_link(None, 10), ResendLink::Hidden);
    assert_eq!(resend_link(Some(AuthenticationCodeType::Sms), 10), ResendLink::ViaWithCountdown(AuthenticationCodeType::Sms, 10));
    assert_eq!(resend_link(Some(AuthenticationCodeType::Call), 0), ResendLink::Via(AuthenticationCodeType::Call));
}

#[test]
fn answers() {
    assert_eq!(phone_number_step(None), PhoneNumberStep::Nothing);
    assert_eq!(phone_number_step(Some(PhoneNumberAnswer::Accepted)), PhoneNumberStep::Nothing);
    assert_eq!(phone_number_step(Some(PhoneNumberAnswer::AlreadyLoggedIn)), PhoneNumberStep::SwitchAndLogOut);
    assert_eq!(phone_number_step(Some(PhoneNumberAnswer::Error)), PhoneNumberStep::ShowErrorAndFocus);
    assert_eq!(recovery_code_step(RecoveryCodeAnswer::Accepted), RecoveryCodeStep::Nothing);
    assert_eq!(recovery_code_step(RecoveryCodeAnswer::Expired), RecoveryCodeStep::RequestNewCode);
    assert_eq!(recovery_code_step(RecoveryCodeAnswer::Error), RecoveryCodeStep::ShowError);
    assert_eq!(new_code_note(true), NewCodeNote::Sent);
    assert_eq!(new_code_note(false), NewCodeNote::Failed);
}

#[test]
fn dialogs() {
    assert_eq!(tos_dialog(true), TosDialog::Accept);
    assert_eq!(tos_dialog(false), TosDialog::Show);
    assert_eq!(tos_step("no"), TosStep::Unfreeze);
    assert_eq!(tos_step("yes"), TosStep::Register);
    assert_eq!(tos_step("ok"), TosStep::Nothing);
    assert_eq!(delete_account_step("delete"), DeleteAccountStep::Delete);
    assert_eq!(delete_account_step("cancel"), DeleteAccountStep::FocusPassword);
    assert!(resets_registration("reset"));
    assert!(!resets_registration("cancel"));
}
