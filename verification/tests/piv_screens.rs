use yubitui::model::mock::mock_yubikey_states;
use yubitui::model::piv::{PivState, SlotInfo};
use yubitui::model::piv_delete::{PivSlot, PIV_DEFAULT_MGMT_KEY_3DES};
use yubitui::model::Version;
use yubitui::tui::piv::{
    parse_hex_key, ChangeMgmtKeyScreen, DeletePivConfirmScreen, MgmtKeyNav, MgmtKeyThenDeleteScreen,
    NewMgmtKeyScreen, PivAction, PivNav, PivScreen,
};
use yubitui::tui::widgets::pin_input::PinKey;

fn popup(nav: PivNav) -> (String, String) {
    match nav {
        PivNav::Popup { title, body } => (title, body),
        other => panic!("expected a popup, got {:?}", other),
    }
}

fn mgmt_popup(nav: MgmtKeyNav) -> (String, String) {
    match nav {
        MgmtKeyNav::Popup { title, body } => (title, body),
        other => panic!("expected a popup, got {:?}", other),
    }
}

#[test]
fn piv_list_view_and_delete() {
    let mut s = PivScreen::new(Some(mock_yubikey_states().remove(0)), true);
    let (t, b) = popup(s.on_action(PivAction::ViewSlot));
    assert_eq!(t, "PIV Slot 9A Certificate");
    assert_eq!(b, "Slot:      9A\nSubject:   Mock PIV Auth\nAlgorithm: ECCP256");
    match s.on_action(PivAction::DeleteSlot) {
        PivNav::MgmtKeyForDelete(m) => {
            assert_eq!(m.slot, PivSlot::Authentication);
            assert_eq!(m.firmware, Version { major: 5, minor: 4, patch: 3 });
        }
        other => panic!("unexpected {:?}", other),
    }
    s.on_action(PivAction::Down);
    assert_eq!(s.state.selected_slot, 1);
    let (t, b) = popup(s.on_action(PivAction::ViewSlot));
    assert_eq!(t, "PIV Slot 9C Certificate");
    assert_eq!(b, "Slot 9c is empty — no certificate present.");
    let (t, b) = popup(s.on_action(PivAction::DeleteSlot));
    assert_eq!(t, "Empty Slot");
    assert_eq!(b, "No certificate or key to delete in this slot.");
    for _ in 0..5 {
        s.on_action(PivAction::Down);
    }
    assert_eq!(s.state.selected_slot, 3);
    match s.on_action(PivAction::ChangeMgmtKey) {
        PivNav::ChangeMgmtKey(c) => assert!(c.is_default),
        other => panic!("unexpected {:?}", other),
    }
}

#[test]
fn piv_slot_without_details() {
    let mut yk = mock_yubikey_states().remove(0);
    yk.piv = Some(PivState {
        slots: vec![SlotInfo { slot: "9a".to_string(), algorithm: None, subject: None, issuer: None, validity: None }],
    });
    let mut s = PivScreen::new(Some(yk), false);
    let (_, b) = popup(s.on_action(PivAction::ViewSlot));
    assert_eq!(b, "Slot:      9A\nCertificate present (no parsed details available).");
}

#[test]
fn mgmt_key_form_accepts_hex_only() {
    let mut m = MgmtKeyThenDeleteScreen::new(PivSlot::Signature, Version { major: 5, minor: 7, patch: 1 });
    for c in "0g1Z2".chars() {
        m.on_key(PinKey::Char(c));
    }
    assert_eq!(m.input, "012");
    assert!(matches!(m.on_key(PinKey::Enter), MgmtKeyNav::Stay));
    assert_eq!(m.error.as_deref(), Some("Management key must be 48 hex characters (24 bytes). Got 3 chars."));
    for _ in 0..60 {
        m.on_key(PinKey::Char('a'));
    }
    assert_eq!(m.input.len(), 48);
    match m.on_key(PinKey::Enter) {
        MgmtKeyNav::ConfirmDelete(d) => {
            assert_eq!(d.key[0], 0x01);
            assert_eq!(d.key[1], 0x2a);
            assert_eq!(d.key[23], 0xaa);
            assert_eq!(
                d.inner.message,
                "Permanently delete contents of PIV slot Digital Signature (9c)?\n\nBoth certificate and key will be deleted.\n\nThis cannot be undone."
            );
        }
        other => panic!("unexpected {:?}", other),
    }
    assert!(m.error.is_none());
    let mut e = MgmtKeyThenDeleteScreen::new(PivSlot::CardAuth, Version { major: 5, minor: 4, patch: 3 });
    match e.on_key(PinKey::Enter) {
        MgmtKeyNav::ConfirmDelete(d) => {
            assert_eq!(d.key, PIV_DEFAULT_MGMT_KEY_3DES);
            assert!(d.inner.message.contains("Key material cannot be removed on firmware 5.4.3 (requires 5.7+)."));
        }
        other => panic!("unexpected {:?}", other),
    }
    assert!(matches!(e.on_key(PinKey::Esc), MgmtKeyNav::Back));
}

#[test]
fn piv_delete_outcomes() {
    let d = DeletePivConfirmScreen::new(PivSlot::KeyManagement, PIV_DEFAULT_MGMT_KEY_3DES, Version { major: 6, minor: 0, patch: 0 });
    assert!(d.inner.message.contains("Both certificate and key will be deleted."));
    assert_eq!(mgmt_popup(d.outcome(Ok("Slot 9d cleared".to_string()))), ("Success".to_string(), "Slot 9d cleared".to_string()));
    assert_eq!(mgmt_popup(d.outcome(Err("6982".to_string()))).1, "Delete failed: 6982");
}

#[test]
fn mgmt_key_change_flow() {
    let mut c = ChangeMgmtKeyScreen::new(false);
    c.on_key(PinKey::Char('f'));
    c.on_key(PinKey::Enter);
    assert_eq!(c.error.as_deref(), Some("Key must be 48 hex characters (24 bytes). Got 1."));
    c.on_key(PinKey::Backspace);
    let mut n = match c.on_key(PinKey::Enter) {
        MgmtKeyNav::NewKey(n) => n,
        other => panic!("unexpected {:?}", other),
    };
    assert_eq!(n.current_key, PIV_DEFAULT_MGMT_KEY_3DES);
    n.on_key(PinKey::Enter);
    assert_eq!(n.error.as_deref(), Some("New key must be exactly 48 hex characters (24 bytes). Got 0."));
    for _ in 0..48 {
        n.on_key(PinKey::Char('F'));
    }
    match n.on_key(PinKey::Enter) {
        MgmtKeyNav::ChangeKey { current, new } => {
            assert_eq!(current, PIV_DEFAULT_MGMT_KEY_3DES);
            assert_eq!(new, [0xFFu8; 24]);
        }
        other => panic!("unexpected {:?}", other),
    }
    assert_eq!(
        mgmt_popup(n.outcome(Ok(()))).1,
        "PIV management key changed successfully.\nStore the new key in a safe place."
    );
    assert_eq!(mgmt_popup(n.outcome(Err("auth".to_string()))).1, "Failed to change management key: auth");
    let fresh = NewMgmtKeyScreen::new([0u8; 24]);
    assert!(fresh.input.is_empty());
}

#[test]
fn hex_key_parsing() {
    let k = parse_hex_key(b"0102030405060708010203040506070801020304050607xy");
    assert_eq!(&k[..23], &PIV_DEFAULT_MGMT_KEY_3DES[..23]);
    assert_eq!(k[23], 0x00);
}
