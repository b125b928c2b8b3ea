use yubitui::model::oath::OathType;
use yubitui::model::ssh::{export_ssh_key_output, ssh_agent_setup_lines};
use yubitui::model::touch_policy::{touch_policies_from_uif, TouchPolicy};
use yubitui::tui::fido2::{ResetGuidanceScreen, ResetPhase};
use yubitui::tui::keys::{keygen_params_from_state, KeyAlgorithm, KeyGenWizard, KeyState};
use yubitui::tui::oath::{AddAccountScreen, AddAccountStep};
use yubitui::tui::widgets::pin_input::PinKey;

#[test]
fn touch_policies_from_uif_objects() {
    let p = touch_policies_from_uif(Some(&[0x01, 0x20]), Some(&[]), None, Some(&[0x07]));
    assert_eq!(p.signature, TouchPolicy::On);
    assert_eq!(p.encryption, TouchPolicy::Off);
    assert_eq!(p.authentication, TouchPolicy::Off);
    assert_eq!(p.attestation, TouchPolicy::Unknown("0x07".to_string()));
    let q = touch_policies_from_uif(Some(&[0x02]), Some(&[0x03]), Some(&[0x04]), Some(&[0x00]));
    assert_eq!(q.signature, TouchPolicy::Fixed);
    assert_eq!(q.encryption, TouchPolicy::Cached);
    assert_eq!(q.authentication, TouchPolicy::CachedFixed);
    assert_eq!(q.attestation, TouchPolicy::Off);
}

#[test]
fn keygen_params_follow_the_wizard() {
    let mut st = KeyState::default();
    assert!(keygen_params_from_state(&st).is_none());
    st.keygen_wizard = Some(KeyGenWizard::new("2024-01-02"));
    let p = keygen_params_from_state(&st).unwrap();
    assert_eq!(p.algorithm, KeyAlgorithm::Ed25519);
    assert_eq!(p.expire_date, "0");
    assert!(!p.backup);
    assert_eq!(p.backup_path, None);
    {
        let w = st.keygen_wizard.as_mut().unwrap();
        w.algorithm_index = 1;
        w.expiry_index = 2;
        w.backup = true;
        w.name = "Ann".to_string();
        w.email = "ann@example.org".to_string();
    }
    let p = keygen_params_from_state(&st).unwrap();
    assert_eq!(p.algorithm, KeyAlgorithm::Rsa2048);
    assert_eq!(p.expire_date, "2y");
    assert_eq!(p.backup_path.as_deref(), Some("~/yubikey-backup-2024-01-02.gpg"));
    assert_eq!(p.name, "Ann");
    assert_eq!(p.email, "ann@example.org");
    {
        let w = st.keygen_wizard.as_mut().unwrap();
        w.algorithm_index = 2;
        w.expiry_index = 3;
        w.custom_expiry = "2030-12-31".to_string();
    }
    let p = keygen_params_from_state(&st).unwrap();
    assert_eq!(p.algorithm, KeyAlgorithm::Rsa4096);
    assert_eq!(p.expire_date, "2030-12-31");
    st.keygen_wizard.as_mut().unwrap().expiry_index = 1;
    assert_eq!(keygen_params_from_state(&st).unwrap().expire_date, "1y");
}

#[test]
fn ssh_key_export_and_agent_setup() {
    assert_eq!(export_ssh_key_output(true, b"ssh-ed25519 AAAA openpgp:0x1\n"), Ok("ssh-ed25519 AAAA openpgp:0x1\n".to_string()));
    assert_eq!(export_ssh_key_output(false, b""), Err("Failed to export SSH key".to_string()));
    assert_eq!(
        ssh_agent_setup_lines(true, b"/run/user/1000/gnupg/S.gpg-agent.ssh\n").unwrap(),
        vec![
            "\nTo configure SSH agent, add this to your shell config:",
            "  export SSH_AUTH_SOCK=\"/run/user/1000/gnupg/S.gpg-agent.ssh\"",
            "\nThen restart your shell or run:",
            "  source ~/.bashrc  # or ~/.zshrc",
        ]
    );
    assert_eq!(ssh_agent_setup_lines(false, b""), Err("Failed to get GPG agent SSH socket path".to_string()));
}

#[test]
fn reset_guidance_text_by_phase() {
    let mut s = ResetGuidanceScreen::new();
    let l = s.lines();
    assert_eq!(l.len(), 8);
    assert_eq!(l[3], "Step 1: Unplug your YubiKey now.");
    s.phase = ResetPhase::WaitingForReplug(10);
    assert_eq!(s.lines()[4], "Time remaining: 10s  [####################]");
    s.phase = ResetPhase::WaitingForReplug(3);
    assert_eq!(s.lines()[4], "Time remaining: 3s  [######              ]");
    s.phase = ResetPhase::WaitingForReplug(0);
    assert_eq!(s.lines()[4], "Time remaining: 0s  [                    ]");
    s.phase = ResetPhase::Resetting;
    assert_eq!(s.lines(), vec!["Device detected! Sending reset command..."]);
    s.phase = ResetPhase::Error("no device".to_string());
    assert_eq!(s.lines(), vec!["Reset failed: no device", "", "Press Esc to return."]);
    s.phase = ResetPhase::Expired;
    assert_eq!(s.lines()[0], "Window expired -- the 10-second timing window has passed.");
    s.phase = ResetPhase::Success;
    assert_eq!(s.lines()[3], "Press Enter or Esc to return.");
}

#[test]
fn add_account_text_by_step() {
    let mut s = AddAccountScreen::new();
    for c in "Git".chars() {
        s.on_key(PinKey::Char(c));
    }
    assert_eq!(s.lines(), vec!["Step 1/5: Issuer", "", "Enter issuer name (e.g., GitHub, Google):", "> Git_"]);
    s.on_key(PinKey::Enter);
    for c in "bob".chars() {
        s.on_key(PinKey::Char(c));
    }
    assert_eq!(s.lines()[3], "> bob_");
    s.on_key(PinKey::Enter);
    for c in "ABé".chars() {
        s.on_key(PinKey::Char(c));
    }
    assert_eq!(s.lines(), vec!["Step 3/5: Secret Key", "", "Enter Base32 secret key:", "> ●●●●_"]);
    s.on_key(PinKey::Enter);
    assert_eq!(s.state.step, AddAccountStep::TypeSelect);
    assert_eq!(s.lines()[3], " > TOTP (time-based, default)");
    assert_eq!(s.lines()[4], "   HOTP (counter-based)");
    s.on_key(PinKey::Char('h'));
    assert_eq!(s.state.oath_type, OathType::Hotp);
    s.on_key(PinKey::Enter);
    assert_eq!(
        s.lines(),
        vec![
            "Step 5/5: Confirm",
            "",
            "Review:",
            "  Name:   Git:bob",
            "  Type:   HOTP",
            "  Secret: ●●●●",
            "",
            "Enter to save, Esc to cancel.",
        ]
    );
    let mut e = AddAccountScreen::new();
    e.on_key(PinKey::Enter);
    e.on_key(PinKey::Enter);
    assert_eq!(e.lines()[4..].to_vec(), vec!["", "Error: Account name cannot be empty."]);
}
