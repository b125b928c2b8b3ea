use yubitui::model::mock::mock_yubikey_states;
use yubitui::model::openpgp_delete::OpenPgpKeySlot;
use yubitui::model::touch_policy::{TouchPolicies, TouchPolicy};
use yubitui::tui::keys::{
    keys_slot_rows, keys_touch_lines,
    keys_attestation, keys_delete_request, keys_export_ssh, keys_ssh_pubkey, DeleteKeyScreen, ImportAction,
    ImportKeyScreen, KeyAttributes, KeysAction, KeysScreen, SlotAttributes, KeyDetailScreen, KeyGenStep, KeyGenWizard, KeysNav, PinThenDeleteScreen, ProgressLabel,
    TouchPolicyScreen, TouchPolicyValueScreen, TouchSlotAction, TouchValueAction, WizardAction, WizardKey,
    WizardOutcome,
};
use yubitui::tui::widgets::pin_input::PinKey;

fn popup(nav: KeysNav) -> (String, String) {
    match nav {
        KeysNav::Popup { title, body } => (title, body),
        other => panic!("expected a popup, got {:?}", other),
    }
}

fn type_text(w: &mut KeyGenWizard, text: &str) {
    for c in text.chars() {
        assert!(w.on_key(WizardKey::Char(c)));
    }
}

#[test]
fn keygen_wizard_walks_to_result() {
    let mut w = KeyGenWizard::new("today");
    assert_eq!(w.on_action(WizardAction::Confirm), WizardOutcome::Redraw);
    assert_eq!(w.step, KeyGenStep::Expiry);
    for _ in 0..5 {
        w.on_action(WizardAction::SelectDown);
    }
    assert_eq!(w.expiry_index, 3);
    w.on_action(WizardAction::Confirm);
    assert!(w.editing_custom_expiry);
    assert_eq!(w.step, KeyGenStep::Expiry);
    // An empty custom date does not advance.
    w.on_action(WizardAction::Confirm);
    assert_eq!(w.step, KeyGenStep::Expiry);
    type_text(&mut w, "2y");
    assert_eq!(w.custom_expiry, "2y");
    w.on_action(WizardAction::Confirm);
    assert_eq!(w.step, KeyGenStep::Identity);
    assert!(!w.editing_custom_expiry);
    type_text(&mut w, "Alice");
    w.on_action(WizardAction::Confirm);
    assert_eq!(w.active_field, 1);
    // The email is still empty: no step forward.
    w.on_action(WizardAction::Confirm);
    assert_eq!(w.step, KeyGenStep::Identity);
    type_text(&mut w, "a@b.c");
    assert_eq!(w.name, "Alice");
    assert_eq!(w.email, "a@b.c");
    w.on_action(WizardAction::Confirm);
    assert_eq!(w.step, KeyGenStep::Backup);
    w.on_action(WizardAction::Confirm);
    assert_eq!(w.step, KeyGenStep::Confirm);
    assert_eq!(w.on_action(WizardAction::Confirm), WizardOutcome::Redraw);
    assert_eq!(w.step, KeyGenStep::Result);
    assert_eq!(w.on_action(WizardAction::Confirm), WizardOutcome::Close);
    assert_eq!(w.step, KeyGenStep::Result);
}

#[test]
fn keygen_wizard_algorithm_rows_clamp() {
    let mut w = KeyGenWizard::new("today");
    w.on_action(WizardAction::SelectUp);
    assert_eq!(w.algorithm_index, 0);
    w.on_action(WizardAction::SelectDown);
    w.on_action(WizardAction::SelectDown);
    w.on_action(WizardAction::SelectDown);
    assert_eq!(w.algorithm_index, 2);
    w.on_action(WizardAction::SelectUp);
    assert_eq!(w.algorithm_index, 1);
}

#[test]
fn keygen_wizard_back_and_close() {
    let mut w = KeyGenWizard::new("today");
    assert_eq!(w.on_action(WizardAction::Back), WizardOutcome::Close);
    assert_eq!(w.step, KeyGenStep::Algorithm);
    w.on_action(WizardAction::Confirm);
    w.on_action(WizardAction::Confirm);
    assert_eq!(w.step, KeyGenStep::Identity);
    assert_eq!(w.on_action(WizardAction::Back), WizardOutcome::Redraw);
    assert_eq!(w.step, KeyGenStep::Expiry);
}

#[test]
fn keygen_wizard_keys_edit_fields() {
    let mut w = KeyGenWizard::new("2024");
    assert_eq!(w.backup_path, "~/yubikey-backup-2024.gpg");
    // No field is edited on the algorithm step.
    assert!(!w.on_key(WizardKey::Char('x')));
    assert!(!w.on_key(WizardKey::Tab));
    w.on_action(WizardAction::Confirm);
    w.on_action(WizardAction::Confirm);
    type_text(&mut w, "Bob");
    assert!(w.on_key(WizardKey::Backspace));
    assert_eq!(w.name, "Bo");
    assert!(w.on_key(WizardKey::Tab));
    assert_eq!(w.active_field, 1);
    type_text(&mut w, "x");
    assert_eq!(w.email, "x");
    assert!(w.on_key(WizardKey::Tab));
    assert_eq!(w.active_field, 0);
    assert!(!w.on_key(WizardKey::Other));
    // Backspace on an empty field leaves it empty.
    let mut e = KeyGenWizard::new("d");
    e.on_action(WizardAction::Confirm);
    e.on_action(WizardAction::Confirm);
    assert!(e.on_key(WizardKey::Backspace));
    assert_eq!(e.name, "");
}

#[test]
fn keygen_wizard_backup_path_editing() {
    let mut w = KeyGenWizard::new("d");
    w.on_action(WizardAction::Confirm);
    w.on_action(WizardAction::Confirm);
    type_text(&mut w, "N");
    w.on_action(WizardAction::Confirm);
    type_text(&mut w, "E");
    w.on_action(WizardAction::Confirm);
    assert_eq!(w.step, KeyGenStep::Backup);
    w.backup = true;
    w.on_action(WizardAction::Confirm);
    assert!(w.editing_path);
    assert!(w.on_key(WizardKey::Backspace));
    assert_eq!(w.backup_path, "~/yubikey-backup-d.gp");
    w.on_action(WizardAction::Confirm);
    assert!(!w.editing_path);
    assert_eq!(w.step, KeyGenStep::Confirm);
}

#[test]
fn touch_value_screen_moves_and_prompts() {
    let mut s = TouchPolicyValueScreen::new(2);
    assert_eq!(s.value_index, 1);
    s.on_action(TouchValueAction::ValueUp);
    s.on_action(TouchValueAction::ValueUp);
    assert_eq!(s.value_index, 0);
    for _ in 0..6 {
        s.on_action(TouchValueAction::ValueDown);
    }
    assert_eq!(s.value_index, 4);
    match s.on_action(TouchValueAction::SelectValue) {
        KeysNav::AdminPinPrompt(t) => {
            assert_eq!(t, "Set Touch Policy — Authentication → CachedFixed — Admin PIN")
        }
        other => panic!("unexpected {:?}", other),
    }
    let mut u = TouchPolicyValueScreen::new(9);
    match u.on_action(TouchValueAction::SelectValue) {
        KeysNav::AdminPinPrompt(t) => assert_eq!(t, "Set Touch Policy — Unknown → On — Admin PIN"),
        other => panic!("unexpected {:?}", other),
    }
    assert!(matches!(u.on_action(TouchValueAction::Back), KeysNav::Back));
}

#[test]
fn touch_slot_screen_rows() {
    let mut s = TouchPolicyScreen::new(None);
    assert!(!s.slot_has_key(0));
    assert!(!s.slot_has_key(2));
    assert!(s.slot_has_key(3));
    s.on_action(TouchSlotAction::SlotUp);
    assert_eq!(s.slot_index, 0);
    for _ in 0..5 {
        s.on_action(TouchSlotAction::SlotDown);
    }
    assert_eq!(s.slot_index, 3);
    assert!(matches!(s.on_action(TouchSlotAction::SelectSlot), KeysNav::ChooseTouchValue(3)));
    let yk = mock_yubikey_states().remove(0);
    let t = TouchPolicyScreen::new(Some(yk));
    assert!(t.slot_has_key(0));
    assert!(t.slot_has_key(1));
    assert!(t.slot_has_key(2));
}

#[test]
fn pin_then_delete_refuses_empty_pin() {
    let mut s = PinThenDeleteScreen::new(OpenPgpKeySlot::Enc);
    assert!(matches!(s.on_key(PinKey::Enter), KeysNav::Stay));
    assert_eq!(s.error_message.as_deref(), Some("Admin PIN cannot be empty"));
    for c in "123456789".chars() {
        s.on_key(PinKey::Char(c));
    }
    s.on_key(PinKey::Backspace);
    assert_eq!(s.pin_input, "12345678");
    match s.on_key(PinKey::Enter) {
        KeysNav::ConfirmDelete(d) => {
            assert_eq!(d.slot, OpenPgpKeySlot::Enc);
            assert_eq!(d.admin_pin, "12345678");
            assert_eq!(
                d.body,
                "Permanently delete the Encryption key?\n\nThis destroys the key material and cannot be undone."
            );
        }
        other => panic!("unexpected {:?}", other),
    }
    assert!(matches!(s.on_key(PinKey::Esc), KeysNav::Back));
}

#[test]
fn delete_outcome_messages() {
    let d = DeleteKeyScreen::new(OpenPgpKeySlot::Aut, "12345678".to_string());
    assert_eq!(popup(d.outcome(Ok(()))), ("Success".to_string(), "Authentication key deleted.".to_string()));
    assert_eq!(
        popup(d.outcome(Err("Admin PIN is blocked".to_string()))),
        ("Error".to_string(), "Delete failed: Admin PIN is blocked".to_string())
    );
}

#[test]
fn delete_request_needs_a_key() {
    let (t, b) = popup(keys_delete_request(&None, 0));
    assert_eq!(t, "No Key");
    assert_eq!(b, "No key in the Signature slot to delete.");
    let (_, b) = popup(keys_delete_request(&None, 7));
    assert_eq!(b, "No key in the Authentication slot to delete.");
    let yk = Some(mock_yubikey_states().remove(0));
    assert!(matches!(keys_delete_request(&yk, 1), KeysNav::AskPinToDelete(OpenPgpKeySlot::Enc)));
}

#[test]
fn keys_popup_texts() {
    let key = Some("ssh-ed25519 AAAA".to_string());
    let (t, b) = popup(keys_export_ssh(true, &key));
    assert_eq!(t, "SSH Public Key");
    assert!(b.starts_with("ssh-ed25519 AAAA\n\nAdd this key to:\n  - ~/.ssh/authorized_keys on remote servers"));
    let (_, b) = popup(keys_export_ssh(false, &key));
    assert_eq!(b, "No authentication key found on card.\nImport or generate a key first.");
    let (_, b) = popup(keys_ssh_pubkey(&key));
    assert_eq!(b, "ssh-ed25519 AAAA\n\nAdd this key to:\n  - ~/.ssh/authorized_keys\n  - GitHub / GitLab SSH keys");
    let (t, b) = popup(keys_attestation(&None));
    assert_eq!(t, "Attestation Certificate");
    assert_eq!(b, "No attestation certificate available.\nGenerate a key on-device to obtain attestation.");
    let (_, b) = popup(keys_attestation(&Some("PEM".to_string())));
    assert_eq!(b, "PEM\n\nThis PEM verifies the key was generated on-device.");
}

#[test]
fn import_and_detail_screens() {
    let s = ImportKeyScreen::new(None);
    assert!(s.available_keys.is_empty());
    match s.on_action(ImportAction::ConfirmImport) {
        KeysNav::AdminPinPrompt(t) => assert_eq!(t, "Import Key — Admin PIN"),
        other => panic!("unexpected {:?}", other),
    }
    assert!(matches!(s.on_action(ImportAction::Back), KeysNav::Back));
    let d = KeyDetailScreen::new("T".to_string(), "B".to_string());
    assert_eq!(d.title, "T");
    assert_eq!(d.body, "B");
}

#[test]
fn progress_label_spins() {
    let p = ProgressLabel::new("Working".to_string(), "reading card".to_string(), 3);
    assert_eq!(p.status_line(), "\\ reading card");
    let q = ProgressLabel::new("Working".to_string(), "x".to_string(), 5);
    assert_eq!(q.status_line(), "/ x");
}

#[test]
fn keygen_wizard_screens() {
    let mut w = KeyGenWizard::new("today");
    let (h, lines) = w.screen();
    assert_eq!(h, "Generate Key — Step 1/5: Algorithm");
    assert_eq!(
        lines,
        vec![
            "Select key algorithm:",
            "",
            "> Ed25519/Cv25519",
            "    Modern elliptic curve — recommended for new keys",
            "  RSA 2048",
            "  RSA 4096",
        ]
    );
    w.on_action(WizardAction::Confirm);
    for _ in 0..3 {
        w.on_action(WizardAction::SelectDown);
    }
    w.on_action(WizardAction::Confirm);
    w.on_key(WizardKey::Char('x'));
    let (h, lines) = w.screen();
    assert_eq!(h, "Generate Key — Step 2/5: Expiry");
    assert_eq!(lines[5], "> Custom date");
    assert_eq!(lines[8], "x_");
    w.on_action(WizardAction::Confirm);
    for c in "Al".chars() {
        w.on_key(WizardKey::Char(c));
    }
    let (_, lines) = w.screen();
    assert_eq!(lines[2], "Name: [editing]");
    assert_eq!(lines[3], "  Al");
    w.on_action(WizardAction::Confirm);
    w.on_key(WizardKey::Char('e'));
    w.on_action(WizardAction::Confirm);
    let (_, lines) = w.screen();
    assert_eq!(lines[2], "  [Y] Create backup");
    assert_eq!(lines[3], "> [N] Skip backup");
    assert_eq!(lines.len(), 4);
    w.on_action(WizardAction::Confirm);
    let (h, lines) = w.screen();
    assert_eq!(h, "Generate Key — Step 5/5: Confirm");
    assert_eq!(lines[2], "Algorithm: Ed25519/Cv25519");
    assert_eq!(lines[3], "Expiry:    Custom: x");
    assert_eq!(lines[4], "Name:      Al");
    assert_eq!(lines[5], "Email:     e");
    assert_eq!(lines[6], "Backup:    No");
    w.on_action(WizardAction::Confirm);
    let (h, lines) = w.screen();
    assert_eq!(h, "Generate Key");
    assert_eq!(lines[4], "Press Enter or Esc to close.");
}

#[test]
fn keys_slot_table_and_touch_lines() {
    let yk = mock_yubikey_states().remove(0);
    let pgp = yk.openpgp.as_ref().unwrap();
    let rows = keys_slot_rows(pgp);
    assert_eq!(rows[0], ("Signature".to_string(), "[SET]".to_string(), "A1B2C3D4E5F6A7B8".to_string()));
    assert_eq!(rows[2].0, "Authentication");
    let tp = TouchPolicies {
        signature: TouchPolicy::On,
        encryption: TouchPolicy::Off,
        authentication: TouchPolicy::Fixed,
        attestation: TouchPolicy::Cached,
    };
    let lines = keys_touch_lines(pgp, &tp);
    assert_eq!(
        lines,
        vec![
            "",
            "Touch Policies:",
            "  Signature:      [On]",
            "  Encryption:     [Off]",
            "  Authentication: [Fixed (IRREVERSIBLE)]",
            "  Attestation:    [Cached]",
        ]
    );
    let mut empty = yk.openpgp.unwrap();
    empty.signature_key = None;
    let rows = keys_slot_rows(&empty);
    assert_eq!(rows[0], ("Signature".to_string(), "[EMPTY]".to_string(), "—".to_string()));
    assert_eq!(keys_touch_lines(&empty, &tp)[2], "  Signature:      [—]");
}

#[test]
fn keys_screen_actions() {
    let mut s = KeysScreen::new(Some(mock_yubikey_states().remove(0)));
    match s.on_action(KeysAction::GenerateKey) {
        KeysNav::LaunchKeyGen(w) => assert_eq!(w.backup_path, "~/yubikey-backup-today.gpg"),
        other => panic!("unexpected {:?}", other),
    }
    assert!(matches!(s.on_action(KeysAction::ImportKey), KeysNav::OpenImport));
    assert!(matches!(s.on_action(KeysAction::DeleteKey), KeysNav::AskPinToDelete(OpenPgpKeySlot::Sig)));
    match s.on_action(KeysAction::ViewStatus) {
        KeysNav::ShowDetail(d) => {
            assert_eq!(d.title, "View Card Status");
            assert!(d.body.ends_with("- PIN retry counters"));
        }
        other => panic!("unexpected {:?}", other),
    }
    let (t, b) = popup(s.on_action(KeysAction::KeyAttributes));
    assert_eq!(t, "Key Attributes");
    assert_eq!(b, "Key attributes unavailable. Press K to load.");
    s.state.key_attributes = Some(KeyAttributes {
        signature: Some(SlotAttributes { algorithm: "ed25519".to_string(), fingerprint: "AB12".to_string() }),
        encryption: None,
        authentication: None,
    });
    let (_, b) = popup(s.on_action(KeysAction::KeyAttributes));
    assert_eq!(b, "Signature:      ed25519 (AB12)\nEncryption:     [empty]\nAuthentication: [empty]");
    s.state.ssh_pubkey = Some("ssh-ed25519 AAAA".to_string());
    let (t, b) = popup(s.on_action(KeysAction::SshPubkey));
    assert_eq!(t, "SSH Public Key");
    assert!(b.starts_with("ssh-ed25519 AAAA\n\nAdd this key to:"));
    let (_, b) = popup(s.on_action(KeysAction::ExportSsh));
    assert!(b.ends_with("GitLab > Preferences > SSH Keys"));
    let (t, _) = popup(s.on_action(KeysAction::Attestation));
    assert_eq!(t, "Attestation Certificate");
    assert!(matches!(s.on_action(KeysAction::TouchPolicy), KeysNav::OpenTouchPolicy));
    assert!(matches!(s.on_action(KeysAction::Refresh), KeysNav::Refresh));
    assert!(matches!(s.on_action(KeysAction::Back), KeysNav::Back));
    assert!(matches!(s.on_action(KeysAction::Help), KeysNav::Help));
}
