use yubitui::model::openpgp_delete::{
    delete_openpgp_key, KeyDeleteStage, KeyDeleteStep, OpenPgpDeleteError, OpenPgpKeySlot,
    RSA2048_ATTRS, RSA4096_ATTRS,
};

#[test]
fn slot_tags_and_names() {
    assert_eq!(OpenPgpKeySlot::Sig.algorithm_attr_tag(), 0xC1);
    assert_eq!(OpenPgpKeySlot::Aut.algorithm_attr_tag(), 0xC3);
    assert_eq!(OpenPgpKeySlot::Enc.display_name(), "Encryption");
    assert_eq!(RSA4096_ATTRS, [0x01, 0x10, 0x00, 0x00, 0x11, 0x00]);
}

#[test]
fn deletion_sequence() {
    let (mut d, verify) = delete_openpgp_key(OpenPgpKeySlot::Enc, "12345678");
    assert_eq!(verify, [&[0x00u8, 0x20, 0x00, 0x83, 8][..], b"12345678"].concat());
    match d.step(&[0x90, 0x00]) {
        KeyDeleteStep::Transmit(a) => assert_eq!(a, [&[0x00u8, 0xDA, 0x00, 0xC2, 6][..], &RSA4096_ATTRS[..]].concat()),
        other => panic!("unexpected {other:?}"),
    }
    match d.step(&[0x90, 0x00]) {
        KeyDeleteStep::Transmit(a) => assert_eq!(a, [&[0x00u8, 0xDA, 0x00, 0xC2, 6][..], &RSA2048_ATTRS[..]].concat()),
        other => panic!("unexpected {other:?}"),
    }
    assert!(matches!(d.step(&[0x90, 0x00]), KeyDeleteStep::Deleted));
    assert_eq!(d.stage, KeyDeleteStage::Over);
}

#[test]
fn deletion_pin_errors() {
    let (mut d, _) = delete_openpgp_key(OpenPgpKeySlot::Sig, "bad");
    match d.step(&[0x63, 0xC1]) {
        KeyDeleteStep::Failed(e) => {
            assert_eq!(e, OpenPgpDeleteError::WrongAdminPin(1));
            assert_eq!(e.message().unwrap(), "Wrong Admin PIN (1 retry remaining)");
        }
        other => panic!("unexpected {other:?}"),
    }
    let (mut d, _) = delete_openpgp_key(OpenPgpKeySlot::Sig, "bad");
    assert!(matches!(d.step(&[0x69, 0x83]), KeyDeleteStep::Failed(OpenPgpDeleteError::AdminPinBlocked)));
    assert_eq!(OpenPgpDeleteError::WrongAdminPin(2).message().unwrap(), "Wrong Admin PIN (2 retries remaining)");
    let (mut d, _) = delete_openpgp_key(OpenPgpKeySlot::Aut, "x");
    d.step(&[0x90, 0x00]);
    assert!(matches!(
        d.step(&[0x6A, 0x80]),
        KeyDeleteStep::Failed(OpenPgpDeleteError::PutDataFailed { tag: 0xC3, sw: 0x6A80 })
    ));
}
