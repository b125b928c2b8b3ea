use yubitui::model::mock::mock_yubikey_states;
use yubitui::model::otp::{otp_select_outcome, otp_write_outcome};
use yubitui::model::piv_delete::{PivSlot, PIV_DEFAULT_MGMT_KEY_3DES};
use yubitui::model::touch_policy::TouchPolicy;
use yubitui::model::Version;
use yubitui::tui::oath::{mask_secret, parse_otpauth_uri, OathAction, OathPanel};
use yubitui::tui::piv::DeletePivConfirmScreen;

#[test]
fn otp_status_word_outcomes() {
    assert_eq!(otp_select_outcome(0x9000), Ok(()));
    assert_eq!(otp_select_outcome(0x6A82), Err("OTP application not available".to_string()));
    assert_eq!(otp_write_outcome(0x9000, "PROGRAM SLOT"), Ok(()));
    assert_eq!(otp_write_outcome(0x6A80, "PROGRAM SLOT"), Err("PROGRAM SLOT failed (SW 0x6A80)".to_string()));
    assert_eq!(otp_write_outcome(0x6982, "DELETE SLOT"), Err("DELETE SLOT failed (SW 0x6982)".to_string()));
}

#[test]
fn oath_panel_texts_and_buttons() {
    assert_eq!(OathPanel::Loading.message(), "Loading OATH credentials...");
    assert!(OathPanel::PasswordRequired.message().starts_with("## Password Required\n\n"));
    assert!(OathPanel::NoKey.message().starts_with("## No YubiKey Detected"));
    assert_eq!(OathPanel::List.message(), "");
    assert_eq!(
        OathPanel::PasswordRequired.buttons(),
        vec![("Unlock with Password".to_string(), OathAction::PasswordMgmt)]
    );
    assert_eq!(OathPanel::NoAccounts.buttons(), vec![("Add Account".to_string(), OathAction::AddAccount)]);
    assert_eq!(
        OathPanel::List.buttons(),
        vec![
            ("Add Account".to_string(), OathAction::AddAccount),
            ("Delete Account".to_string(), OathAction::DeleteAccount),
            ("Refresh".to_string(), OathAction::Refresh),
        ]
    );
    assert_eq!(OathPanel::NotLoaded.buttons(), vec![("Refresh".to_string(), OathAction::Refresh)]);
}

#[test]
fn mask_secret_by_bytes() {
    assert_eq!(mask_secret("abcdé"), "abcd●●");
    assert_eq!(mask_secret("é"), "●●");
    assert_eq!(mask_secret("JBSWY3DP"), "JBSW●●●●");
}

#[test]
fn delete_piv_confirmation_is_destructive() {
    let d = DeletePivConfirmScreen::new(
        PivSlot::Authentication,
        PIV_DEFAULT_MGMT_KEY_3DES,
        Version { major: 5, minor: 7, patch: 0 },
    );
    assert_eq!(d.inner.header_text(), "WARNING: Delete PIV Slot");
    assert!(d.inner.destructive);
    assert!(d.inner.message.contains("Both certificate and key will be deleted."));
}

#[test]
fn touch_policy_words_round_trip() {
    for p in [TouchPolicy::Off, TouchPolicy::On, TouchPolicy::Fixed, TouchPolicy::Cached, TouchPolicy::CachedFixed] {
        assert_eq!(TouchPolicy::from_str(p.as_ykman_arg()), p);
    }
    assert_eq!(TouchPolicy::from_str("  Cached-Fixed\n"), TouchPolicy::CachedFixed);
    assert_eq!(TouchPolicy::from_str(" ON "), TouchPolicy::from_str("on"));
}

#[test]
fn otpauth_label_split_examples() {
    let p = parse_otpauth_uri("otpauth://totp/Acme:alice?secret=JBSWY3DP").unwrap();
    assert_eq!((p.issuer.as_str(), p.account.as_str(), p.name.as_str()), ("Acme", "alice", "Acme:alice"));
    let p = parse_otpauth_uri("otpauth://totp/Foo:alice?secret=JBSWY3DP&issuer=Bar").unwrap();
    assert_eq!((p.issuer.as_str(), p.account.as_str(), p.name.as_str()), ("Bar", "alice", "Bar:alice"));
    let p = parse_otpauth_uri("otpauth://totp/alice?secret=JBSWY3DP").unwrap();
    assert_eq!((p.issuer.as_str(), p.account.as_str(), p.name.as_str()), ("", "alice", "alice"));
}

#[test]
fn mock_device_details() {
    let yk = mock_yubikey_states().remove(0);
    let pgp = yk.openpgp.unwrap();
    assert_eq!(pgp.signature_key.unwrap().fingerprint, "A1B2C3D4E5F6A7B8C9D0E1F2A3B4C5D6E7F8A9B0");
    assert_eq!(pgp.cardholder_name.as_deref(), Some("Mock User"));
    let oath = yk.oath.unwrap();
    assert_eq!(oath.credentials[1].name, "Google:mock@gmail.com");
    assert_eq!(oath.credentials[2].code, None);
    let fido = yk.fido2.unwrap();
    assert_eq!(fido.credentials.unwrap()[1].rp_id, "google.com");
}
