use yubitui::model::fido2::{Fido2Credential, Fido2State};
use yubitui::model::mock::mock_yubikey_states;
use yubitui::model::pin_operations::PinOperationResult;
use yubitui::tui::fido2::{Fido2Action, Fido2Nav, Fido2Screen, PinChangeStep, PinSetStep};
use yubitui::tui::pin::{
    join_strings, PinCardLevel, PinManagementScreen, PinMgmtAction, PinMgmtNav, PinOperation, PinOperationNav,
    PinOperationScreen, PinScreen, UnblockAction, UnblockNav, UnblockPath, UnblockWizardScreen,
};
use yubitui::tui::widgets::pin_input::PinKey;

fn fill(s: &mut PinOperationScreen, values: [&str; 3]) {
    for (i, v) in values.iter().enumerate() {
        s.active_field = i;
        for c in v.chars() {
            s.on_key(PinKey::Char(c));
        }
    }
}

#[test]
fn join_strings_like_join() {
    let v = vec!["a".to_string(), "bc".to_string(), "".to_string()];
    assert_eq!(join_strings(&v, "; "), v.join("; "));
    assert_eq!(join_strings(&vec![], "\n"), "");
    assert_eq!(join_strings(&vec!["x".to_string()], "\n"), "x");
}

#[test]
fn pin_operation_forms() {
    let s = PinOperationScreen::change_admin_pin();
    assert_eq!(s.title(), "Change Admin PIN");
    assert_eq!(s.field_labels, vec!["Current Admin PIN", "New Admin PIN", "Confirm Admin PIN"]);
    let r = PinOperationScreen::set_reset_code();
    assert_eq!(r.field_labels, vec!["Admin PIN", "New Reset Code", "Confirm Reset Code"]);
    assert_eq!(r.operation, PinOperation::SetResetCode);

    let mut u = PinOperationScreen::change_user_pin();
    assert_eq!(u.title(), "Change User PIN");
    u.on_key(PinKey::BackTab);
    assert_eq!(u.active_field, 2);
    u.on_key(PinKey::Tab);
    assert_eq!(u.active_field, 0);
    assert!(matches!(u.on_key(PinKey::Enter), PinOperationNav::Stay));
    assert_eq!(u.error_message.as_deref(), Some("All fields are required."));
    fill(&mut u, ["123456", "654321", "654320"]);
    u.on_key(PinKey::Enter);
    assert_eq!(u.error_message.as_deref(), Some("New values do not match. Try again."));
    assert_eq!(u.fields[2], "");
    for c in "654321".chars() {
        u.on_key(PinKey::Char(c));
    }
    match u.on_key(PinKey::Enter) {
        PinOperationNav::Run { operation, current, new } => {
            assert_eq!(operation, PinOperation::ChangeUserPin);
            assert_eq!(current, "123456");
            assert_eq!(new, "654321");
        }
        other => panic!("unexpected {:?}", other),
    }
    let failed = PinOperationResult { success: false, messages: vec!["Bad PIN".to_string(), "2 left".to_string()] };
    assert!(matches!(u.on_result(Ok(failed)), PinOperationNav::Stay));
    assert_eq!(u.error_message.as_deref(), Some("Bad PIN; 2 left"));
    assert_eq!(u.fields, vec!["", "", ""]);
    assert_eq!(u.active_field, 0);
    let ok = PinOperationResult { success: true, messages: vec!["PIN changed".to_string(), "done".to_string()] };
    match u.on_result(Ok(ok)) {
        PinOperationNav::Done { title, body } => {
            assert_eq!(title, "Success");
            assert_eq!(body, "PIN changed\ndone");
        }
        other => panic!("unexpected {:?}", other),
    }
    u.on_result(Err("gpg missing".to_string()));
    assert_eq!(u.error_message.as_deref(), Some("gpg missing"));
}

#[test]
fn pin_management_actions() {
    let s = PinManagementScreen::new(None);
    match s.on_action(PinMgmtAction::ChangeAdminPin) {
        PinMgmtNav::Operation(f) => assert_eq!(f.operation, PinOperation::ChangeAdminPin),
        other => panic!("unexpected {:?}", other),
    }
    assert!(matches!(s.on_action(PinMgmtAction::UnblockPin), PinMgmtNav::Unblock));
    assert!(matches!(s.on_action(PinMgmtAction::Back), PinMgmtNav::Back));
}

#[test]
fn unblock_wizard_actions() {
    let w = UnblockWizardScreen::new(Some(mock_yubikey_states().remove(0)));
    assert!(!w.paths().is_empty());
    assert_eq!(UnblockWizardScreen::new(None).paths(), Vec::<UnblockPath>::new());
    match w.on_action(UnblockAction::UnblockWithReset) {
        UnblockNav::PinForm { title, labels } => {
            assert_eq!(title, "Unblock with Reset Code");
            assert_eq!(labels, vec!["Reset Code", "New User PIN", "Confirm New PIN"]);
        }
        other => panic!("unexpected {:?}", other),
    }
    match w.on_action(UnblockAction::FactoryReset) {
        UnblockNav::ConfirmFactoryReset { title, body } => {
            assert_eq!(title, "Confirm Factory Reset");
            assert!(body.starts_with("THIS WILL PERMANENTLY DELETE all GPG keys"));
        }
        other => panic!("unexpected {:?}", other),
    }
}

fn fido2_state(pin_is_set: bool, creds: Option<Vec<Fido2Credential>>) -> Fido2State {
    Fido2State {
        firmware_version: None,
        algorithms: vec![],
        pin_is_set,
        pin_retry_count: 8,
        credentials: creds,
        supports_cred_mgmt: true,
    }
}

fn passkey(rp: &str, user: &str) -> Fido2Credential {
    Fido2Credential { rp_id: rp.to_string(), rp_name: None, user_name: user.to_string(), credential_id: vec![7] }
}

#[test]
fn fido2_screen_actions() {
    let mut s = Fido2Screen::new(Some(fido2_state(true, Some(vec![passkey("a.com", "ann"), passkey("b.com", "bob")]))));
    s.on_action(Fido2Action::Down);
    s.on_action(Fido2Action::Down);
    assert_eq!(s.state.selected_index, 1);
    match s.on_action(Fido2Action::DeleteCredential) {
        Fido2Nav::Delete(d) => {
            assert_eq!(d.rp_id, "b.com");
            assert_eq!(d.user_name, "bob");
            assert_eq!(d.cached_pin, None);
        }
        other => panic!("unexpected {:?}", other),
    }
    match s.on_action(Fido2Action::SetPin) {
        Fido2Nav::ChangePin(p) => assert_eq!(p.step, PinChangeStep::EnterCurrent),
        other => panic!("unexpected {:?}", other),
    }
    assert!(matches!(s.on_action(Fido2Action::Reset), Fido2Nav::ConfirmReset));
    assert!(matches!(s.on_action(Fido2Action::AuthenticatePin), Fido2Nav::Authenticate(_)));

    let mut locked = Fido2Screen::new(Some(fido2_state(false, None)));
    locked.on_action(Fido2Action::Down);
    assert_eq!(locked.state.selected_index, 0);
    assert!(matches!(locked.on_action(Fido2Action::DeleteCredential), Fido2Nav::Stay));
    match locked.on_action(Fido2Action::SetPin) {
        Fido2Nav::SetPin(p) => assert_eq!(p.step, PinSetStep::EnterNew),
        other => panic!("unexpected {:?}", other),
    }
}

#[test]
fn fido2_screen_lines() {
    assert_eq!(
        Fido2Screen::new(None).lines(),
        vec!["", "No YubiKey detected. Insert your YubiKey and press Esc to return.", ""]
    );
    let mut st = fido2_state(true, Some(vec![passkey("github.com", "alice"), passkey("x", "bob")]));
    st.firmware_version = Some("5.4.3".to_string());
    st.algorithms = vec!["ES256".to_string(), "EdDSA".to_string()];
    let mut s = Fido2Screen::new(Some(st));
    s.on_action(Fido2Action::Down);
    let l = s.lines();
    assert_eq!(l[1], "Firmware: 5.4.3");
    assert_eq!(l[2], "Algorithms: ES256, EdDSA");
    assert_eq!(l[3], "PIN: Set (8 retries remaining)");
    assert_eq!(l[5], "Passkeys (2)");
    assert_eq!(l[6], format!("    {:<30}  alice", "github.com"));
    assert_eq!(l[7], format!("  > {:<30}  bob", "x"));
    assert_eq!(l.len(), 9);
    let locked = Fido2Screen::new(Some(fido2_state(true, None))).lines();
    assert_eq!(locked[2], "Algorithms: None reported");
    assert_eq!(locked[5], "Credentials locked -- press P to authenticate");
    let nopin = Fido2Screen::new(Some(fido2_state(false, None))).lines();
    assert_eq!(nopin[1], "Firmware: Unknown");
    assert_eq!(nopin[3], "PIN: Not set");
    assert_eq!(nopin[5], "No PIN configured -- press S to set one.");
    let mut old = fido2_state(true, Some(vec![]));
    old.supports_cred_mgmt = false;
    assert_eq!(Fido2Screen::new(Some(old)).lines()[5], "Passkey management requires CTAP 2.1 (not supported by this device)");
    assert_eq!(Fido2Screen::new(Some(fido2_state(true, Some(vec![])))).lines()[5], "No passkeys stored on this device.");
}

#[test]
fn pin_status_card() {
    let (lines, level) = PinManagementScreen::new(None).status_card();
    assert_eq!(lines, vec!["No YubiKey detected.", "Insert your YubiKey and press R to refresh."]);
    assert_eq!(level, PinCardLevel::Error);
    let mut yk = mock_yubikey_states().remove(0);
    let (lines, level) = PinManagementScreen::new(Some(mock_yubikey_states().remove(0))).status_card();
    assert_eq!(
        lines,
        vec![
            "User PIN: Working (3/3 attempts remaining)",
            "Admin PIN: Working (3/3 attempts remaining)",
            "Reset Code: Not set",
        ]
    );
    assert_eq!(level, PinCardLevel::Normal);
    yk.pin_status.user_pin_retries = 1;
    yk.pin_status.reset_code_retries = 2;
    let (lines, level) = PinManagementScreen::new(Some(yk)).status_card();
    assert_eq!(lines[0], "User PIN: Warning — only 1/3 attempts remaining");
    assert_eq!(lines[2], "Reset Code: Set");
    assert_eq!(level, PinCardLevel::Warn);
    let mut blocked = mock_yubikey_states().remove(0);
    blocked.pin_status.admin_pin_blocked = true;
    let (lines, level) = PinManagementScreen::new(Some(blocked)).status_card();
    assert_eq!(lines[1], "Admin PIN: Blocked — factory reset required");
    assert_eq!(level, PinCardLevel::Error);
}

#[test]
fn pin_management_starts_on_main_page() {
    let s = PinManagementScreen::new(None);
    assert_eq!(s.state.screen, PinScreen::Main);
    assert!(!s.state.operation_running);
    assert_eq!(s.state.pending_operation, None);
}
