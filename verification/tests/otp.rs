use yubitui::model::otp::{
    build_delete_slot_apdu, check_otp_slot, hex_decode, parse_otp_status, read_otp_status_apdu,
    OtpConfig, OtpCredentialType, OtpError, OtpSlotStatus,
};

#[test]
fn test_otp_slot_status_bitmask_both_empty() {
    let bytes = [0x01u8, 0x00, 0x00, 0x00, 0x00, 0x00];
    let state = parse_otp_status(&bytes).unwrap();
    assert!(matches!(state.slot1, OtpSlotStatus::Empty));
    assert!(matches!(state.slot2, OtpSlotStatus::Empty));
    assert!(!state.slot1_touch);
    assert!(!state.slot2_touch);
}

#[test]
fn test_otp_slot_status_bitmask_slot1_occupied() {
    let bytes = [0x01u8, 0x00, 0x00, 0x00, 0x01, 0x00];
    let state = parse_otp_status(&bytes).unwrap();
    assert!(matches!(state.slot1, OtpSlotStatus::Occupied));
    assert!(matches!(state.slot2, OtpSlotStatus::Empty));
    assert!(!state.slot1_touch);
    assert!(!state.slot2_touch);
}

#[test]
fn test_otp_slot_status_bitmask_both_occupied() {
    let bytes = [0x01u8, 0x00, 0x00, 0x00, 0x03, 0x00];
    let state = parse_otp_status(&bytes).unwrap();
    assert!(matches!(state.slot1, OtpSlotStatus::Occupied));
    assert!(matches!(state.slot2, OtpSlotStatus::Occupied));
    assert!(!state.slot1_touch);
    assert!(!state.slot2_touch);
}

#[test]
fn test_otp_slot_status_bitmask_touch_flags() {
    let bytes = [0x01u8, 0x00, 0x00, 0x00, 0x0F, 0x00];
    let state = parse_otp_status(&bytes).unwrap();
    assert!(matches!(state.slot1, OtpSlotStatus::Occupied));
    assert!(matches!(state.slot2, OtpSlotStatus::Occupied));
    assert!(state.slot1_touch);
    assert!(state.slot2_touch);
}

#[test]
fn test_otp_slot_status_bitmask_slot1_touch_only() {
    let bytes = [0x01u8, 0x00, 0x00, 0x00, 0x05, 0x00];
    let state = parse_otp_status(&bytes).unwrap();
    assert!(matches!(state.slot1, OtpSlotStatus::Occupied));
    assert!(matches!(state.slot2, OtpSlotStatus::Empty));
    assert!(state.slot1_touch);
    assert!(!state.slot2_touch);
}

#[test]
fn test_otp_slot_status_bitmask_short_response_fails() {
    let bytes = [0x01u8, 0x00, 0x00, 0x00];
    assert!(parse_otp_status(&bytes).is_err());
}

#[test]
fn otp_status_high_byte_ignored_for_flags() {
    let state = parse_otp_status(&[0, 0, 0, 0, 0x02, 0xFF]).unwrap();
    assert!(matches!(state.slot1, OtpSlotStatus::Empty));
    assert!(matches!(state.slot2, OtpSlotStatus::Occupied));
    assert_eq!(parse_otp_status(&[1, 2, 3]).err(), Some(OtpError::StatusTooShort(3)));
}

#[test]
fn otp_slot_checks_and_commands() {
    assert!(check_otp_slot(1).is_ok());
    assert_eq!(check_otp_slot(3).err(), Some(OtpError::InvalidSlot(3)));
    assert_eq!(build_delete_slot_apdu(0).err(), Some(OtpError::InvalidSlot(0)));
    assert_eq!(read_otp_status_apdu(), vec![0x00, 0x03, 0x00, 0x00]);
    let c = OtpConfig::new(2, OtpCredentialType::StaticPassword).with_touch(true);
    assert_eq!(c.slot, 2);
    assert!(c.require_touch);
    assert_eq!(OtpCredentialType::ChallengeResponse.to_string(), "HMAC-SHA1 Challenge-Response");
}

#[test]
fn hex_decoding() {
    assert_eq!(hex_decode(" 0aFf ").unwrap(), vec![0x0A, 0xFF]);
    assert_eq!(hex_decode("abc").err(), Some(OtpError::OddHexLength));
    assert_eq!(hex_decode("zz").err(), Some(OtpError::InvalidHex));
}
