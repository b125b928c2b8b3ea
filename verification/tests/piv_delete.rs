use cipher::{BlockCipherEncrypt, KeyInit};
use yubitui::model::piv_delete::{
    answer_challenge, key_delete_supported, PivError, PivSession, PivSlot, PivStage, PivStep,
    PIV_DEFAULT_MGMT_KEY_3DES,
};
use yubitui::model::Version;

#[test]
fn test_piv_slot_ids() {
    assert_eq!(PivSlot::Authentication.slot_id(), 0x9A);
    assert_eq!(PivSlot::Signature.slot_id(), 0x9C);
    assert_eq!(PivSlot::KeyManagement.slot_id(), 0x9D);
    assert_eq!(PivSlot::CardAuth.slot_id(), 0x9E);
}

#[test]
fn test_piv_slot_object_ids() {
    assert_eq!(PivSlot::Authentication.object_id_bytes(), &[0x5F, 0xC1, 0x05]);
    assert_eq!(PivSlot::Signature.object_id_bytes(), &[0x5F, 0xC1, 0x0A]);
    assert_eq!(PivSlot::KeyManagement.object_id_bytes(), &[0x5F, 0xC1, 0x0B]);
    assert_eq!(PivSlot::CardAuth.object_id_bytes(), &[0x5F, 0xC1, 0x01]);
}

#[test]
fn test_piv_slot_from_str() {
    assert_eq!(PivSlot::from_slot_str("9a"), Some(PivSlot::Authentication));
    assert_eq!(PivSlot::from_slot_str("9c"), Some(PivSlot::Signature));
    assert_eq!(PivSlot::from_slot_str("9d"), Some(PivSlot::KeyManagement));
    assert_eq!(PivSlot::from_slot_str("9e"), Some(PivSlot::CardAuth));
    assert_eq!(PivSlot::from_slot_str("9f"), None);
    assert_eq!(PivSlot::from_slot_str(""), None);
}

#[test]
fn test_piv_slot_display_name() {
    assert!(PivSlot::Authentication.display_name().contains("9a"));
    assert!(PivSlot::Signature.display_name().contains("9c"));
    assert!(PivSlot::KeyManagement.display_name().contains("9d"));
    assert!(PivSlot::CardAuth.display_name().contains("9e"));
}

#[test]
fn test_default_mgmt_key_length() {
    assert_eq!(PIV_DEFAULT_MGMT_KEY_3DES.len(), 24);
}

#[test]
fn test_default_mgmt_key_values() {
    let expected: &[u8] = &[
        0x01, 0x02, 0x03, 0x04, 0x05, 0x06, 0x07, 0x08,
        0x01, 0x02, 0x03, 0x04, 0x05, 0x06, 0x07, 0x08,
        0x01, 0x02, 0x03, 0x04, 0x05, 0x06, 0x07, 0x08,
    ];
    assert_eq!(PIV_DEFAULT_MGMT_KEY_3DES.as_slice(), expected);
}

#[test]
fn test_firmware_gate_rejects_old_firmware() {
    let fw = Version { major: 5, minor: 6, patch: 3 };
    let is_old = fw.major < 5 || (fw.major == 5 && fw.minor < 7);
    assert!(is_old, "5.6.3 should be gated");
    assert!(!key_delete_supported(&fw));
}

#[test]
fn test_firmware_gate_accepts_new_firmware() {
    let fw57 = Version { major: 5, minor: 7, patch: 0 };
    let fw6 = Version { major: 6, minor: 0, patch: 0 };
    let gated57 = fw57.major < 5 || (fw57.major == 5 && fw57.minor < 7);
    let gated6 = fw6.major < 5 || (fw6.major == 5 && fw6.minor < 7);
    assert!(!gated57, "5.7.0 should be allowed");
    assert!(!gated6, "6.0.0 should be allowed");
    assert!(key_delete_supported(&fw57));
    assert!(key_delete_supported(&fw6));
}

fn challenge_response() -> Vec<u8> {
    vec![0x7C, 0x0A, 0x81, 0x08, 1, 2, 3, 4, 5, 6, 7, 8, 0x90, 0x00]
}

#[test]
fn challenge_is_encrypted_with_3des() {
    let answer = answer_challenge(&challenge_response(), &PIV_DEFAULT_MGMT_KEY_3DES).unwrap();
    assert_eq!(&answer[..9], &[0x00, 0x87, 0x03, 0x9B, 0x0C, 0x7C, 0x0A, 0x82, 0x08]);
    let c = des::TdesEde3::new(&cipher::Array::from(PIV_DEFAULT_MGMT_KEY_3DES));
    let mut b = cipher::Array::from([1u8, 2, 3, 4, 5, 6, 7, 8]);
    c.encrypt_block(&mut b);
    assert_eq!(&answer[9..], b.as_slice());
    assert_ne!(&answer[9..], &[1u8, 2, 3, 4, 5, 6, 7, 8]);
    assert_eq!(
        answer_challenge(&[0x69, 0x82], &PIV_DEFAULT_MGMT_KEY_3DES).err(),
        Some(PivError::ChallengeRequestFailed(0x6982))
    );
    assert_eq!(
        answer_challenge(&[0x7C, 0x90, 0x00], &PIV_DEFAULT_MGMT_KEY_3DES).err(),
        Some(PivError::ChallengeTooShort(3))
    );
}

#[test]
fn delete_session_on_old_firmware() {
    let fw = Version { major: 5, minor: 4, patch: 3 };
    let (mut s, select) = PivSession::delete_slot(PivSlot::Signature, &PIV_DEFAULT_MGMT_KEY_3DES, &fw);
    assert_eq!(select[1], 0xA4);
    match s.step(&[0x90, 0x00]) {
        PivStep::Transmit(a) => assert_eq!(a, vec![0x00, 0x87, 0x03, 0x9B, 0x04, 0x7C, 0x02, 0x81, 0x00]),
        other => panic!("unexpected {other:?}"),
    }
    assert!(matches!(s.step(&challenge_response()), PivStep::Transmit(_)));
    match s.step(&[0x90, 0x00]) {
        PivStep::Transmit(a) => assert_eq!(
            a,
            vec![0x00, 0xDB, 0x3F, 0xFF, 0x07, 0x5C, 0x03, 0x5F, 0xC1, 0x0A, 0x53, 0x00]
        ),
        other => panic!("unexpected {other:?}"),
    }
    match s.step(&[0x90, 0x00]) {
        PivStep::Done(m) => assert_eq!(
            m,
            "Certificate deleted from slot Digital Signature (9c). Key deletion requires firmware 5.7+ (yours is 5.4.3)."
        ),
        other => panic!("unexpected {other:?}"),
    }
    assert_eq!(s.stage, PivStage::Over);
}

#[test]
fn delete_session_deletes_key_on_new_firmware() {
    let fw = Version { major: 5, minor: 7, patch: 1 };
    let (mut s, _) = PivSession::delete_slot(PivSlot::CardAuth, &PIV_DEFAULT_MGMT_KEY_3DES, &fw);
    s.step(&[0x90, 0x00]);
    s.step(&challenge_response());
    s.step(&[0x90, 0x00]);
    match s.step(&[0x90, 0x00]) {
        PivStep::Transmit(a) => assert_eq!(a, vec![0x00, 0xF6, 0xFF, 0x9E]),
        other => panic!("unexpected {other:?}"),
    }
    match s.step(&[0x90, 0x00]) {
        PivStep::Done(m) => assert_eq!(m, "Certificate and key deleted from slot Card Authentication (9e)."),
        other => panic!("unexpected {other:?}"),
    }
}

#[test]
fn change_key_session_outcomes() {
    let new_key = [0x11u8; 24];
    let (mut s, _) = PivSession::change_key(&PIV_DEFAULT_MGMT_KEY_3DES, &new_key);
    assert!(matches!(s.step(&[0x6A, 0x82]), PivStep::Failed(PivError::PivNotFound)));

    let (mut s, _) = PivSession::change_key(&PIV_DEFAULT_MGMT_KEY_3DES, &new_key);
    s.step(&[0x90, 0x00]);
    s.step(&challenge_response());
    match s.step(&[0x90, 0x00]) {
        PivStep::Transmit(a) => {
            assert_eq!(&a[..8], &[0x00, 0xFF, 0xFF, 0xFE, 0x1C, 0x9B, 0x03, 0x18]);
            assert_eq!(&a[8..], &new_key);
        }
        other => panic!("unexpected {other:?}"),
    }
    assert!(matches!(s.step(&[0x69, 0x82]), PivStep::Failed(PivError::WrongCurrentKey)));
    assert!(matches!(s.step(&[0x90, 0x00]), PivStep::Failed(PivError::SessionOver)));
}
