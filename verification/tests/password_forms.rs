use yubitui::tui::fido2::{
    countdown_tick, CountdownTick, DeleteCredentialNav, DeleteCredentialScreen, Fido2PinNav, PinAuthScreen,
    PinChangeScreen, PinChangeStep, PinSetScreen, PinSetStep, ResetCommand, ResetEvent, ResetWorkerResult, ResetGuidanceScreen,
    ResetPhase,
};
use yubitui::tui::oath_password::{
    OathChangePasswordScreen, OathPasswordNav, OathRemovePasswordScreen, OathSetPasswordScreen, OathUnlockScreen,
};
use yubitui::tui::widgets::pin_input::PinKey;

fn type_oath(f: &mut dyn FnMut(PinKey) -> OathPasswordNav, text: &str) {
    for c in text.chars() {
        f(PinKey::Char(c));
    }
}

#[test]
fn oath_unlock_refuses_empty_password() {
    let mut s = OathUnlockScreen::new();
    assert!(matches!(s.on_key(PinKey::Enter), OathPasswordNav::Stay));
    assert_eq!(s.error.as_deref(), Some("Password cannot be empty"));
    type_oath(&mut |k| s.on_key(k), "secreT");
    s.on_key(PinKey::Backspace);
    match s.on_key(PinKey::Enter) {
        OathPasswordNav::Unlock(p) => assert_eq!(p, "secre"),
        other => panic!("unexpected {:?}", other),
    }
    s.on_failure("Wrong password".to_string());
    assert_eq!(s.input, "");
    assert_eq!(s.error.as_deref(), Some("Wrong password"));
    assert!(matches!(s.on_key(PinKey::Esc), OathPasswordNav::Cancel));
}

#[test]
fn oath_set_password_checks_confirmation() {
    let mut s = OathSetPasswordScreen::new();
    // Enter on the first field moves to the confirmation.
    assert!(matches!(s.on_key(PinKey::Enter), OathPasswordNav::Stay));
    assert_eq!(s.active_field, 1);
    // Submitting with an empty password is refused.
    s.on_key(PinKey::Enter);
    assert_eq!(s.error.as_deref(), Some("Password cannot be empty"));
    s.on_key(PinKey::Tab);
    assert_eq!(s.active_field, 0);
    type_oath(&mut |k| s.on_key(k), "abc");
    s.on_key(PinKey::Tab);
    type_oath(&mut |k| s.on_key(k), "abd");
    s.on_key(PinKey::Enter);
    assert_eq!(s.error.as_deref(), Some("Passwords do not match"));
    assert_eq!(s.confirm_pw, "");
    assert_eq!(s.active_field, 1);
    type_oath(&mut |k| s.on_key(k), "abc");
    match s.on_key(PinKey::Enter) {
        OathPasswordNav::SetPassword(p) => assert_eq!(p, "abc"),
        other => panic!("unexpected {:?}", other),
    }
    match s.on_result(Ok(())) {
        OathPasswordNav::Done { title, body } => {
            assert_eq!(title, "Password Set");
            assert_eq!(body, "OATH application password has been set.");
        }
        other => panic!("unexpected {:?}", other),
    }
    assert!(matches!(s.on_result(Err("card error".to_string())), OathPasswordNav::Stay));
    assert_eq!(s.error.as_deref(), Some("card error"));
}

#[test]
fn oath_change_password_flow() {
    let mut s = OathChangePasswordScreen::new();
    s.on_key(PinKey::Enter);
    s.on_key(PinKey::Enter);
    assert_eq!(s.active_field, 2);
    // Tab on the last field stays there.
    s.on_key(PinKey::Tab);
    assert_eq!(s.active_field, 2);
    s.on_key(PinKey::Enter);
    assert_eq!(s.error.as_deref(), Some("All fields required"));
    s.active_field = 0;
    type_oath(&mut |k| s.on_key(k), "old");
    s.on_key(PinKey::Tab);
    type_oath(&mut |k| s.on_key(k), "new");
    s.on_key(PinKey::Tab);
    type_oath(&mut |k| s.on_key(k), "nex");
    s.on_key(PinKey::Enter);
    assert_eq!(s.error.as_deref(), Some("New passwords do not match"));
    assert_eq!(s.confirm_pw, "");
    type_oath(&mut |k| s.on_key(k), "new");
    match s.on_key(PinKey::Enter) {
        OathPasswordNav::ChangePassword { current, new } => {
            assert_eq!(current, "old");
            assert_eq!(new, "new");
        }
        other => panic!("unexpected {:?}", other),
    }
    s.on_result(Err("Wrong password".to_string()));
    assert_eq!(s.current_pw, "");
    assert_eq!(s.active_field, 0);
    match s.on_result(Ok(())) {
        OathPasswordNav::Done { title, .. } => assert_eq!(title, "Password Changed"),
        other => panic!("unexpected {:?}", other),
    }
}

#[test]
fn oath_remove_password_flow() {
    let mut s = OathRemovePasswordScreen::new();
    s.on_key(PinKey::Enter);
    assert_eq!(s.error.as_deref(), Some("Password required"));
    type_oath(&mut |k| s.on_key(k), "pw");
    match s.on_key(PinKey::Enter) {
        OathPasswordNav::RemovePassword(p) => assert_eq!(p, "pw"),
        other => panic!("unexpected {:?}", other),
    }
    s.on_result(Err("no".to_string()));
    assert_eq!(s.current_pw, "");
    match s.on_result(Ok(())) {
        OathPasswordNav::Done { body, .. } => assert_eq!(body, "OATH application password has been removed."),
        other => panic!("unexpected {:?}", other),
    }
}

#[test]
fn fido2_pin_set_flow() {
    let mut s = PinSetScreen::new();
    for c in "123".chars() {
        s.on_key(PinKey::Char(c));
    }
    s.on_key(PinKey::Enter);
    assert_eq!(s.error_message.as_deref(), Some("PIN must be at least 4 characters"));
    assert_eq!(s.step, PinSetStep::EnterNew);
    s.on_key(PinKey::Char('4'));
    s.on_key(PinKey::Enter);
    assert_eq!(s.step, PinSetStep::ConfirmNew);
    assert_eq!(s.error_message, None);
    for c in "1235".chars() {
        s.on_key(PinKey::Char(c));
    }
    s.on_key(PinKey::Enter);
    assert_eq!(s.error_message.as_deref(), Some("PINs do not match. Try again."));
    assert_eq!(s.confirm_pin, "");
    for c in "1234".chars() {
        s.on_key(PinKey::Char(c));
    }
    match s.on_key(PinKey::Enter) {
        Fido2PinNav::SetPin(p) => assert_eq!(p, "1234"),
        other => panic!("unexpected {:?}", other),
    }
    match s.on_result(Ok(())) {
        Fido2PinNav::Done { title, body } => {
            assert_eq!(title, "Success");
            assert_eq!(body, "PIN set successfully.");
        }
        other => panic!("unexpected {:?}", other),
    }
}

#[test]
fn fido2_pin_length_counts_bytes() {
    // Two characters of two bytes each make four bytes.
    let mut s = PinSetScreen::new();
    s.on_key(PinKey::Char('é'));
    s.on_key(PinKey::Char('é'));
    s.on_key(PinKey::Enter);
    assert_eq!(s.step, PinSetStep::ConfirmNew);
}

#[test]
fn fido2_pin_change_flow() {
    let mut s = PinChangeScreen::new();
    s.on_key(PinKey::Enter);
    assert_eq!(s.step, PinChangeStep::EnterNew);
    for c in "abcd".chars() {
        s.on_key(PinKey::Char(c));
    }
    s.on_key(PinKey::Enter);
    assert_eq!(s.step, PinChangeStep::ConfirmNew);
    for c in "abcd".chars() {
        s.on_key(PinKey::Char(c));
    }
    match s.on_key(PinKey::Enter) {
        Fido2PinNav::ChangePin { current, new } => {
            assert_eq!(current, "");
            assert_eq!(new, "abcd");
        }
        other => panic!("unexpected {:?}", other),
    }
    s.on_result(Err("PIN invalid".to_string()));
    assert_eq!(s.error_message.as_deref(), Some("PIN invalid"));
}

#[test]
fn fido2_pin_auth_failure_clears() {
    let mut s = PinAuthScreen::new();
    s.on_key(PinKey::Char('1'));
    match s.on_key(PinKey::Enter) {
        Fido2PinNav::Authenticate(p) => assert_eq!(p, "1"),
        other => panic!("unexpected {:?}", other),
    }
    s.on_failure("PinInvalid");
    assert_eq!(s.pin_input, "");
    assert_eq!(s.error_message.as_deref(), Some("Invalid PIN: PinInvalid"));
}

#[test]
fn passkey_deletion_texts() {
    let d = DeleteCredentialScreen::new("github.com".to_string(), "alice".to_string(), vec![1, 2], None);
    assert_eq!(d.body, "Permanently delete passkey for 'github.com'?\n\nUser: alice\n\nThis cannot be undone.");
    assert!(matches!(d.confirm(), DeleteCredentialNav::AskPin));
    let e = DeleteCredentialScreen::new("x".to_string(), "y".to_string(), vec![9], Some("1234".to_string()));
    match e.confirm() {
        DeleteCredentialNav::Delete { pin, credential_id } => {
            assert_eq!(pin, "1234");
            assert_eq!(credential_id, vec![9]);
        }
        other => panic!("unexpected {:?}", other),
    }
    match e.outcome(Ok(())) {
        DeleteCredentialNav::Popup { body, .. } => assert_eq!(body, "'x' credential deleted."),
        other => panic!("unexpected {:?}", other),
    }
    match e.outcome(Err("gone".to_string())) {
        DeleteCredentialNav::Popup { title, body } => {
            assert_eq!(title, "Error");
            assert_eq!(body, "Delete failed: gone");
        }
        other => panic!("unexpected {:?}", other),
    }
}

#[test]
fn reset_guidance_phases() {
    let mut s = ResetGuidanceScreen::new();
    assert_eq!(s.on_event(ResetEvent::Next), ResetCommand::StartCountdown);
    assert!(matches!(s.phase, ResetPhase::WaitingForReplug(10)));
    assert_eq!(s.on_event(ResetEvent::Progress(7)), ResetCommand::Stay);
    assert!(matches!(s.phase, ResetPhase::WaitingForReplug(7)));
    assert_eq!(s.on_event(ResetEvent::Worker(ResetWorkerResult::Expired)), ResetCommand::Stay);
    assert!(matches!(s.phase, ResetPhase::Expired));
    assert_eq!(s.on_event(ResetEvent::Next), ResetCommand::Stay);
    assert!(matches!(s.phase, ResetPhase::WaitingForUnplug));
    s.on_event(ResetEvent::Next);
    assert_eq!(s.on_event(ResetEvent::Worker(ResetWorkerResult::DeviceFound)), ResetCommand::SendReset);
    assert!(matches!(s.phase, ResetPhase::Resetting));
    s.on_event(ResetEvent::ResetDone(Err("timeout".to_string())));
    assert!(matches!(&s.phase, ResetPhase::Error(m) if m == "timeout"));
    s.on_event(ResetEvent::ResetDone(Ok(())));
    assert!(matches!(s.phase, ResetPhase::Success));
    assert_eq!(s.on_event(ResetEvent::Next), ResetCommand::Close);
    assert_eq!(s.on_event(ResetEvent::Cancel), ResetCommand::Close);
}

#[test]
fn countdown_ticks() {
    assert_eq!(countdown_tick(10, false), CountdownTick::Wait(9));
    assert_eq!(countdown_tick(3, true), CountdownTick::Found);
    assert_eq!(countdown_tick(0, true), CountdownTick::Expired);
    assert_eq!(countdown_tick(0, false), CountdownTick::Expired);
    // Without a key the countdown from ten expires after ten waits.
    let mut secs = 10u8;
    let mut waits = 0;
    loop {
        match countdown_tick(secs, false) {
            CountdownTick::Wait(n) => {
                secs = n;
                waits += 1;
            }
            CountdownTick::Expired => break,
            CountdownTick::Found => panic!("no key"),
        }
    }
    assert_eq!(waits, 10);
}
