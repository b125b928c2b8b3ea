use yubitui::model::otp::{OtpCredentialType, OtpSlotStatus, OtpState};
use yubitui::tui::oath_password::{OathPasswordMenuAction, OathPasswordMenuNav, OathPasswordMgmtScreen};
use yubitui::tui::otp::{
    OtpAction, OtpConfigAction, OtpConfigNav, OtpConfigScreen, OtpNav, OtpScreen, OtpStaticPwScreen,
};
use yubitui::tui::widgets::pin_input::PinKey;

#[test]
fn otp_list_actions() {
    let s = OtpScreen::new(None);
    assert!(!s.key_present);
    assert!(OtpScreen::new_with_key(None).key_present);
    assert!(matches!(s.on_action(OtpAction::Refresh), OtpNav::Back));
    match s.on_action(OtpAction::ConfigureSlot2) {
        OtpNav::Configure(c) => assert_eq!(c.slot, 2),
        other => panic!("unexpected {:?}", other),
    }
    match s.on_action(OtpAction::DeleteSlot1) {
        OtpNav::ConfirmDelete { slot, title, body } => {
            assert_eq!(slot, 1);
            assert_eq!(title, "Delete OTP Slot 1");
            assert_eq!(body, "This will erase the credential in Slot 1 (short touch).\nThe slot will become empty.");
        }
        other => panic!("unexpected {:?}", other),
    }
}

#[test]
fn otp_config_choices_and_results() {
    let c = OtpConfigScreen::new(1);
    match c.on_action(OtpConfigAction::Hmac) {
        OtpConfigNav::Program(cfg) => {
            assert_eq!(cfg.slot, 1);
            assert_eq!(cfg.credential_type, OtpCredentialType::ChallengeResponse);
            assert!(!cfg.require_touch);
        }
        other => panic!("unexpected {:?}", other),
    }
    match c.on_action(OtpConfigAction::StaticPw) {
        OtpConfigNav::StaticPassword(p) => assert_eq!(p.slot, 1),
        other => panic!("unexpected {:?}", other),
    }
    match c.program_result(OtpCredentialType::YubicoOtp, Ok(())) {
        OtpConfigNav::Done { title, body } => {
            assert_eq!(title, "Slot Configured");
            assert_eq!(body, "OTP Slot 1 programmed with Yubico OTP.");
        }
        other => panic!("unexpected {:?}", other),
    }
    match c.program_result(OtpCredentialType::YubicoOtp, Err("no card".to_string())) {
        OtpConfigNav::Done { title, body } => {
            assert_eq!(title, "Configuration Failed");
            assert_eq!(body, "Failed to program slot 1: no card");
        }
        other => panic!("unexpected {:?}", other),
    }
}

#[test]
fn otp_static_password_entry() {
    let mut s = OtpStaticPwScreen::new(2);
    assert!(matches!(s.on_key(PinKey::Enter), OtpConfigNav::Stay));
    assert_eq!(s.error.as_deref(), Some("Password cannot be empty."));
    for _ in 0..40 {
        s.on_key(PinKey::Char('x'));
    }
    assert_eq!(s.password.len(), 38);
    s.on_key(PinKey::Backspace);
    assert_eq!(s.password.len(), 37);
    match s.on_key(PinKey::Enter) {
        OtpConfigNav::Program(cfg) => {
            assert_eq!(cfg.slot, 2);
            assert_eq!(cfg.credential_type, OtpCredentialType::StaticPassword);
            assert_eq!(cfg.static_password.as_deref(), Some("x".repeat(37).as_str()));
        }
        other => panic!("unexpected {:?}", other),
    }
    match s.on_result(Ok(())) {
        OtpConfigNav::Done { body, .. } => assert_eq!(body, "OTP Slot 2 programmed with Static Password."),
        other => panic!("unexpected {:?}", other),
    }
    s.on_result(Err("write failed".to_string()));
    assert_eq!(s.password, "");
    assert_eq!(s.error.as_deref(), Some("write failed"));
    assert!(matches!(s.on_key(PinKey::Esc), OtpConfigNav::Back));
}

#[test]
fn oath_password_menu_opens_forms() {
    let m = OathPasswordMgmtScreen::new();
    assert!(matches!(m.on_action(OathPasswordMenuAction::SetPassword), OathPasswordMenuNav::SetForm(_)));
    assert!(matches!(m.on_action(OathPasswordMenuAction::ChangePassword), OathPasswordMenuNav::ChangeForm(_)));
    assert!(matches!(m.on_action(OathPasswordMenuAction::RemovePassword), OathPasswordMenuNav::RemoveForm(_)));
    assert!(matches!(m.on_action(OathPasswordMenuAction::Back), OathPasswordMenuNav::Back));
}

#[test]
fn otp_slot_table() {
    let st = OtpState { slot1: OtpSlotStatus::Occupied, slot2: OtpSlotStatus::Empty, slot1_touch: true, slot2_touch: false };
    let (a, b) = OtpScreen::new(Some(st)).rows().unwrap();
    assert_eq!(a, ("✓ Set".to_string(), "Slot 1 (short touch)".to_string(), "Configured (touch required)".to_string()));
    assert_eq!(b, ("○ Empty".to_string(), "Slot 2 (long touch)".to_string(), "Empty".to_string()));
    let (l1, _) = OtpScreen::new(None).rows().unwrap_err();
    assert_eq!(l1, "No YubiKey Detected");
    let (l1, l2) = OtpScreen::new_with_key(None).rows().unwrap_err();
    assert_eq!(l1, "OTP status unavailable");
    assert_eq!(l2, "Could not read OTP slots via PC/SC on this hardware.");
}
