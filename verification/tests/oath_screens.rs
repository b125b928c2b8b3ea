use yubitui::model::oath::{OathAlgorithm, OathCredential, OathState, OathType};
use yubitui::tui::oath::{
    oath_rows, totp_refresh_text, totp_seconds_remaining, totp_seconds_remaining_now, AddAccountScreen,
    AddAccountStep, DeleteConfirmScreen, ImportUriScreen, ImportUriStep, OathAction, OathEntryNav, OathPanel,
    OathScreen, OathScreenNav,
};
use yubitui::tui::widgets::pin_input::PinKey;

fn type_into(s: &mut AddAccountScreen, text: &str) {
    for c in text.chars() {
        s.on_key(PinKey::Char(c));
    }
}

fn credential(name: &str, issuer: Option<&str>) -> OathCredential {
    let mut c = OathCredential::default();
    c.name = name.to_string();
    c.issuer = issuer.map(|i| i.to_string());
    c
}

#[test]
fn add_account_wizard_stores_credential() {
    let mut s = AddAccountScreen::new();
    type_into(&mut s, "GitHub");
    s.on_key(PinKey::Enter);
    assert_eq!(s.state.step, AddAccountStep::AccountName);
    assert_eq!(s.state.issuer, "GitHub");
    assert_eq!(s.input_buffer, "");
    s.on_key(PinKey::Enter);
    assert_eq!(s.state.step, AddAccountStep::AccountName);
    assert_eq!(s.state.error_message.as_deref(), Some("Account name cannot be empty."));
    type_into(&mut s, "alicx");
    s.on_key(PinKey::Backspace);
    type_into(&mut s, "e");
    s.on_key(PinKey::Enter);
    assert_eq!(s.state.account_name, "alice");
    type_into(&mut s, "JBSWY3DPEHPK3PXP");
    s.on_key(PinKey::Enter);
    assert_eq!(s.state.step, AddAccountStep::TypeSelect);
    s.on_key(PinKey::Char('H'));
    assert_eq!(s.state.oath_type, OathType::Hotp);
    s.on_key(PinKey::Char('x'));
    assert_eq!(s.state.oath_type, OathType::Hotp);
    assert_eq!(s.input_buffer, "");
    s.on_key(PinKey::Enter);
    assert_eq!(s.state.step, AddAccountStep::Confirm);
    match s.on_key(PinKey::Enter) {
        OathEntryNav::PutCredential { name, secret, oath_type, algorithm } => {
            assert_eq!(name, "GitHub:alice");
            assert_eq!(secret, "JBSWY3DPEHPK3PXP");
            assert_eq!(oath_type, OathType::Hotp);
            assert_eq!(algorithm, OathAlgorithm::Sha1);
        }
        other => panic!("unexpected {:?}", other),
    }
    match s.on_put_result("GitHub:alice", Ok(())) {
        OathEntryNav::Done { title, body } => {
            assert_eq!(title, "Success");
            assert_eq!(body, "Account 'GitHub:alice' added successfully.");
        }
        other => panic!("unexpected {:?}", other),
    }
    s.on_put_result("x", Err("no space".to_string()));
    assert_eq!(s.state.error_message.as_deref(), Some("no space"));
    assert!(matches!(s.on_key(PinKey::Esc), OathEntryNav::Cancel));
}

#[test]
fn import_uri_screen_preview_and_commit() {
    let mut s = ImportUriScreen::new();
    for c in "  nonsense ".chars() {
        s.on_key(PinKey::Char(c));
    }
    s.on_key(PinKey::Enter);
    assert!(matches!(s.step, ImportUriStep::Paste));
    assert!(s.error.is_some());
    s.input = "  otpauth://totp/Acme:bob?secret=jbswy3dpehpk3pxp&algorithm=SHA256  ".to_string();
    s.on_key(PinKey::Enter);
    assert!(s.error.is_none());
    match &s.step {
        ImportUriStep::Confirm(p) => assert_eq!(p.name, "Acme:bob"),
        other => panic!("unexpected {:?}", other),
    }
    match s.on_key(PinKey::Enter) {
        OathEntryNav::PutCredential { name, secret, algorithm, .. } => {
            assert_eq!(name, "Acme:bob");
            assert_eq!(secret, "JBSWY3DPEHPK3PXP");
            assert_eq!(algorithm, OathAlgorithm::Sha256);
        }
        other => panic!("unexpected {:?}", other),
    }
    s.on_put_result("Acme:bob", Err("full".to_string()));
    assert!(matches!(s.step, ImportUriStep::Paste));
    assert_eq!(s.error.as_deref(), Some("Add failed: full"));
    match s.on_put_result("Acme:bob", Ok(())) {
        OathEntryNav::Done { title, body } => {
            assert_eq!(title, "Imported");
            assert_eq!(body, "Account 'Acme:bob' added.");
        }
        other => panic!("unexpected {:?}", other),
    }
    // Escape on the confirmation goes back to editing.
    s.on_key(PinKey::Enter);
    assert!(matches!(s.on_key(PinKey::Esc), OathEntryNav::Stay));
    assert!(matches!(s.step, ImportUriStep::Paste));
    assert!(matches!(s.on_key(PinKey::Esc), OathEntryNav::Cancel));
}

#[test]
fn oath_delete_confirmation_texts() {
    let d = DeleteConfirmScreen::new("GitHub:alice".to_string(), "GitHub".to_string());
    assert_eq!(
        d.body,
        "Permanently delete 'GitHub'?\n\nThis cannot be undone. The credential will be removed from the YubiKey."
    );
    match d.outcome(Ok(())) {
        OathEntryNav::Done { title, body } => {
            assert_eq!(title, "Success");
            assert_eq!(body, "'GitHub' deleted from YubiKey.");
        }
        other => panic!("unexpected {:?}", other),
    }
    match d.outcome(Err("not found".to_string())) {
        OathEntryNav::Done { title, body } => {
            assert_eq!(title, "Error");
            assert_eq!(body, "Delete failed: not found");
        }
        other => panic!("unexpected {:?}", other),
    }
}

#[test]
fn oath_list_cursor_and_actions() {
    let state = OathState {
        credentials: vec![credential("GitHub:alice", Some("GitHub")), credential("plain", None)],
        password_required: false,
    };
    let mut s = OathScreen::new_with_key(Some(state));
    assert!(s.key_present);
    s.on_action(OathAction::Up);
    assert_eq!(s.state.selected_index, 0);
    s.on_action(OathAction::Down);
    s.on_action(OathAction::Down);
    assert_eq!(s.state.selected_index, 1);
    match s.on_action(OathAction::DeleteAccount) {
        OathScreenNav::ConfirmDelete(d) => {
            assert_eq!(d.credential_name, "plain");
            assert_eq!(d.display_name, "plain");
        }
        other => panic!("unexpected {:?}", other),
    }
    s.on_action(OathAction::Up);
    match s.on_action(OathAction::DeleteAccount) {
        OathScreenNav::ConfirmDelete(d) => assert_eq!(d.display_name, "GitHub"),
        other => panic!("unexpected {:?}", other),
    }
    assert!(matches!(s.on_action(OathAction::PasswordMgmt), OathScreenNav::PasswordMenu));
    assert!(matches!(s.on_action(OathAction::GenerateHotp), OathScreenNav::Stay));
    assert!(matches!(s.on_action(OathAction::Back), OathScreenNav::Back));
}

#[test]
fn oath_list_locked_and_empty() {
    let mut s = OathScreen::new(None);
    assert!(!s.key_present);
    s.on_action(OathAction::Down);
    assert_eq!(s.state.selected_index, 0);
    assert!(matches!(s.on_action(OathAction::DeleteAccount), OathScreenNav::Stay));
    s.loading = true;
    s.on_loaded(None);
    assert!(!s.loading);
    assert!(s.oath_state.is_none());
    s.on_loaded(Some(OathState { credentials: vec![], password_required: true }));
    assert!(matches!(s.on_action(OathAction::PasswordMgmt), OathScreenNav::Unlock));
}

#[test]
fn oath_panels() {
    let mut s = OathScreen::new(None);
    assert_eq!(s.panel(), OathPanel::NoKey);
    s.loading = true;
    assert_eq!(s.panel(), OathPanel::Loading);
    assert_eq!(OathScreen::new_with_key(None).panel(), OathPanel::NotLoaded);
    let locked = OathState { credentials: vec![], password_required: true };
    assert_eq!(OathScreen::new(Some(locked)).panel(), OathPanel::PasswordRequired);
    let empty = OathState { credentials: vec![], password_required: false };
    assert_eq!(OathScreen::new(Some(empty)).panel(), OathPanel::NoAccounts);
    let one = OathState { credentials: vec![credential("a", None)], password_required: false };
    assert_eq!(OathScreen::new(Some(one)).panel(), OathPanel::List);
}

#[test]
fn oath_table_rows() {
    let mut hotp = credential("counter", None);
    hotp.oath_type = OathType::Hotp;
    let mut coded = credential("x", Some("AVeryLongIssuerNameThatGoesOnAndOn"));
    coded.code = Some("123456".to_string());
    let rows = oath_rows(&vec![credential("GitHub:alice", Some("GitHub")), hotp, coded], 1);
    assert_eq!(rows[0], (" ".to_string(), "GitHub".to_string(), "------".to_string(), "TOTP".to_string()));
    assert_eq!(rows[1], (">".to_string(), "counter".to_string(), "[Enter]".to_string(), "HOTP".to_string()));
    assert_eq!(rows[2].1, "AVeryLongIssuerNameThatGoesOnA");
    assert_eq!(rows[2].2, "123456");
}

#[test]
fn totp_countdown() {
    assert_eq!(totp_seconds_remaining(0), 30);
    assert_eq!(totp_seconds_remaining(59), 1);
    assert_eq!(totp_seconds_remaining(1_700_000_010), 30);
    assert_eq!(totp_seconds_remaining(1_700_000_020), 20);
    assert_eq!(totp_seconds_remaining(-1), 31);
    assert_eq!(totp_seconds_remaining(i64::MIN), 30 - (i64::MIN % 30));
    let now = totp_seconds_remaining_now();
    assert!((1..=30).contains(&now));
    assert_eq!(totp_refresh_text(7), "TOTP refreshes in 7s");
}
