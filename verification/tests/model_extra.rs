use yubitui::model::otp::{build_program_slot_apdu, OtpConfig, OtpCredentialType, OtpError};
use yubitui::model::pin_operations::{
    change_admin_pin_programmatic, set_reset_code_programmatic, GpgInput, GpgStatusKind,
};
use yubitui::model::ssh::get_ssh_config;
use yubitui::model::Model;

fn lines(v: &[GpgInput]) -> Vec<String> {
    v.iter()
        .map(|i| match i {
            GpgInput::WriteLine(l) => l.clone(),
            GpgInput::Close => "<close>".to_string(),
        })
        .collect()
}

#[test]
fn admin_pin_and_reset_code_dialogues() {
    let (mut s, first) = change_admin_pin_programmatic("12345678", "87654321");
    assert_eq!(lines(&first), vec!["admin", "passwd", "3"]);
    assert_eq!(lines(&s.on_status(GpgStatusKind::GetHidden, "")), vec!["12345678"]);
    assert_eq!(lines(&s.on_status(GpgStatusKind::GetHidden, "")), vec!["87654321"]);
    assert_eq!(lines(&s.on_status(GpgStatusKind::GetHidden, "")), vec!["87654321", "q", "<close>"]);
    let (mut r, first) = set_reset_code_programmatic("12345678", "abcdefgh");
    assert_eq!(lines(&first), vec!["admin", "passwd", "4"]);
    assert_eq!(lines(&r.on_status(GpgStatusKind::GetHidden, "")), vec!["12345678"]);
}

#[test]
fn model_capabilities() {
    assert!(Model::YubiKey5NFC.supports_fido2());
    assert!(!Model::YubiKey4.supports_fido2());
    assert!(Model::YubiKeyNeo.supports_openpgp());
    assert!(!Model::Unknown.supports_openpgp());
    assert!(!Model::Unknown.supports_piv());
    assert_eq!(Model::YubiKey4C.max_rsa_bits(), 4096);
    assert_eq!(Model::YubiKeyNeo.max_rsa_bits(), 2048);
    assert_eq!(Model::Unknown.max_rsa_bits(), 2048);
}

#[test]
fn ssh_config_from_agent() {
    let out = b"ssh-ed25519 AAAAC3Nz cardno:000612345678\n";
    let c = get_ssh_config(Some("/run/user/1000/gnupg/S.gpg-agent.ssh".to_string()), Some((true, &out[..])));
    assert!(c.agent_running);
    assert!(c.gpg_agent_ssh);
    assert_eq!(c.keys_available.len(), 1);
    let none = get_ssh_config(None, Some((true, &out[..])));
    assert!(!none.agent_running);
    assert!(none.keys_available.is_empty());
    let failed = get_ssh_config(Some("/tmp/agent.sock".to_string()), Some((false, &out[..])));
    assert!(!failed.gpg_agent_ssh);
    assert!(failed.keys_available.is_empty());
}

#[test]
fn program_slot_apdu_static_password() {
    let mut cfg = OtpConfig::new(2, OtpCredentialType::StaticPassword);
    cfg.static_password = Some("ab".to_string());
    let cfg = cfg.with_touch(true);
    let entropy = [0u8; 22];
    let apdu = build_program_slot_apdu(&cfg, &entropy).unwrap();
    assert_eq!(apdu.len(), 5 + 46);
    assert_eq!(&apdu[..7], &[0x00, 0x01, 0x02, 0x00, 46, b'a', b'b']);
    assert_eq!(apdu[5 + 43], 0x02);
    assert_eq!(apdu[5 + 44], 0x24);
    let bad = OtpConfig::new(3, OtpCredentialType::YubicoOtp);
    assert!(matches!(build_program_slot_apdu(&bad, &entropy), Err(OtpError::InvalidSlot(3))));
}
