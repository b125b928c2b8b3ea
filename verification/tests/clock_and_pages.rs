use yubitui::clock::{signed_unix_secs, subsec_nanos_now, unix_now_secs};
use yubitui::model::mock::mock_yubikey_states;
use yubitui::model::piv_delete::{delete_piv_key, PivSlot};
use yubitui::model::touch_policy::{parse_touch_policies, TouchPolicy};
use yubitui::model::Version;
use yubitui::tui::ssh::{SshAction, SshScreen, SshState, SshWizardScreen};
use yubitui::tui::wizard::{date_of_unix_secs, InitialSetupWizardScreen, SetupAction};

/// The civil date of a day count from 1970 by the days-from-civil inverse, the
/// year written with a sign outside 0..=9999.
fn civil(days: i64) -> String {
    let z = days + 719_468;
    let era = z.div_euclid(146_097);
    let doe = z - era * 146_097;
    let yoe = (doe - doe / 1460 + doe / 36_524 - doe / 146_096) / 365;
    let doy = doe - (365 * yoe + yoe / 4 - yoe / 100);
    let mp = (5 * doy + 2) / 153;
    let d = doy - (153 * mp + 2) / 5 + 1;
    let m = if mp < 10 { mp + 3 } else { mp - 9 };
    let y = yoe + era * 400 + if m <= 2 { 1 } else { 0 };
    let year = if (0..=9999).contains(&y) {
        format!("{:04}", y)
    } else if y > 9999 {
        format!("+{:04}", y)
    } else {
        format!("-{:04}", -y)
    };
    format!("{}-{:02}-{:02}", year, m, d)
}

#[test]
fn utc_dates_of_unix_times() {
    assert_eq!(date_of_unix_secs(0), "1970-01-01");
    assert_eq!(date_of_unix_secs(86_399), "1970-01-01");
    assert_eq!(date_of_unix_secs(-1), "1969-12-31");
    assert_eq!(date_of_unix_secs(951_782_400), "2000-02-29");
    assert_eq!(date_of_unix_secs(1_709_164_800), "2024-02-29");
    assert_eq!(date_of_unix_secs(253_402_300_799), "9999-12-31");
    assert_eq!(date_of_unix_secs(253_402_300_800), "+10000-01-01");
    assert_eq!(date_of_unix_secs(-62_167_219_200), "0000-01-01");
    assert_eq!(date_of_unix_secs(-62_167_219_201), "-0001-12-31");
    assert_eq!(date_of_unix_secs(8_210_266_876_799), "+262142-12-31");
    assert_eq!(date_of_unix_secs(8_210_266_876_800), "today");
    assert_eq!(date_of_unix_secs(-8_334_601_228_800), "-262143-01-01");
    assert_eq!(date_of_unix_secs(-8_334_601_228_801), "today");
    assert_eq!(date_of_unix_secs(i64::MAX), "today");
    assert_eq!(date_of_unix_secs(i64::MIN), "today");
    let mut day: i64 = -96_465_292;
    while day <= 95_026_236 {
        assert_eq!(date_of_unix_secs(day * 86_400 + 4_000), civil(day), "day {}", day);
        day += 9_973;
    }
    let mut day: i64 = -800_000;
    while day <= 3_000_000 {
        assert_eq!(date_of_unix_secs(day * 86_400 + 86_399), civil(day), "day {}", day);
        day += 47;
    }
}

#[test]
fn clock_readings() {
    assert_eq!(signed_unix_secs(Ok(5)), 5);
    assert_eq!(signed_unix_secs(Err(7)), -7);
    assert_eq!(signed_unix_secs(Ok(u64::MAX)), i64::MAX);
    assert_eq!(signed_unix_secs(Err(u64::MAX)), -i64::MAX);
    assert!(unix_now_secs() > 1_600_000_000);
    assert!(subsec_nanos_now() < 1_000_000_000);
}

#[test]
fn piv_key_deletion_gate() {
    assert_eq!(
        delete_piv_key(PivSlot::Signature, &Version { major: 5, minor: 6, patch: 3 }),
        Err("PIV key deletion requires firmware 5.7.0 or newer (this device has 5.6.3). Only the certificate was deleted."
            .to_string())
    );
    assert_eq!(delete_piv_key(PivSlot::Signature, &Version { major: 5, minor: 7, patch: 0 }), Ok(vec![0x00, 0xF6, 0xFF, 0x9C]));
    assert_eq!(delete_piv_key(PivSlot::CardAuth, &Version { major: 6, minor: 0, patch: 0 }), Ok(vec![0x00, 0xF6, 0xFF, 0x9E]));
    assert!(delete_piv_key(PivSlot::CardAuth, &Version { major: 4, minor: 9, patch: 9 }).is_err());
}

#[test]
fn touch_policies_without_section_are_off() {
    for out in ["", "OpenPGP version: 3.4\n"] {
        let p = parse_touch_policies(out);
        assert_eq!(p.signature, TouchPolicy::Off);
        assert_eq!(p.encryption, TouchPolicy::Off);
        assert_eq!(p.authentication, TouchPolicy::Off);
        assert_eq!(p.attestation, TouchPolicy::Off);
    }
}

#[test]
fn ssh_wizard_pages() {
    let mut s = SshWizardScreen::new(SshState::default());
    let (h, l) = s.screen();
    assert_eq!(h, "SSH Setup Wizard");
    assert_eq!(
        l,
        vec![
            "Setup Progress",
            "○ SSH support in gpg-agent.conf",
            "○ SSH_AUTH_SOCK configured in shell",
            "⚠ GPG agent not running",
            "",
        ]
    );
    assert_eq!(s.buttons().len(), 5);
    assert_eq!(s.buttons()[3], ("Export SSH Key".to_string(), SshAction::Step(4)));
    s.state.ssh_enabled = true;
    s.state.message = Some("done".to_string());
    assert_eq!(s.screen().1[1], "✓ SSH support enabled in gpg-agent.conf");
    assert_eq!(s.screen().1[4], "Status: done");
    s.on_action(SshAction::Step(5));
    assert_eq!(s.state.screen, SshScreen::TestConnection);
    s.state.test_conn_user = "bob".to_string();
    let l = s.screen().1;
    assert_eq!(l[1], "Username: bob");
    assert_eq!(l[2], "Hostname: ");
    assert_eq!(l.last().unwrap(), "Result: done");
    assert!(s.buttons().is_empty());
    s.on_action(SshAction::Step(2));
    assert_eq!(s.screen().1.len(), 11);
}

#[test]
fn setup_wizard_step_text() {
    let mut w = InitialSetupWizardScreen::new(Some(mock_yubikey_states().remove(0)));
    let l = w.step_lines();
    assert_eq!(l[1], "Device: YubiKey 5 NFC (SN 12345678)");
    assert_eq!(l[2], "Firmware: 5.4.3");
    w.on_action(SetupAction::Next);
    assert_eq!(w.step_lines(), vec!["Step 1: FIDO2 PIN", "✓ FIDO2 PIN is SET.", "Your key is protected.", "", "Enter/S to continue."]);
    w.on_action(SetupAction::Next);
    assert_eq!(w.step_lines()[1], "3 OATH credential(s) on this YubiKey.");
    assert_eq!(w.step_lines()[2], "OATH credentials already configured.");
    w.on_action(SetupAction::Next);
    assert_eq!(w.step_lines()[1], "PIV slot 9a: OCCUPIED");
    w.on_action(SetupAction::Next);
    assert_eq!(
        w.step_lines(),
        vec![
            "Setup Complete!",
            "",
            "Your YubiKey is configured:",
            "  FIDO2 PIN:     Set",
            "  OATH accounts: 3",
            "  PIV slot 9a:   Configured",
            "",
            "Press Esc to return to the dashboard.",
        ]
    );
    let none = InitialSetupWizardScreen::new(None);
    assert_eq!(none.step_lines()[1], "No YubiKey detected. Insert your key and restart.");
}
