use yubitui::model::piv::{
    dn_common_name, extract_tlv_value, oid_to_algorithm_name, parse_cert_info, parse_piv_info,
    parse_piv_slot_presence, piv_get_data_apdu, slot_info_from_response, DnFields, SlotInfo,
};

#[test]
fn test_parse_piv_info_with_slots() {
    let input = "Slot 9a:\n  Algorithm: RSA2048\nSlot 9c:\n  Algorithm: ECCP256\n";
    let state = parse_piv_info(input);
    assert_eq!(state.slots.len(), 2);
    assert_eq!(state.slots[0].slot, "9a");
    assert_eq!(state.slots[1].slot, "9c");
}

#[test]
fn test_parse_piv_info_empty() {
    let state = parse_piv_info("");
    assert!(state.slots.is_empty());
}

#[test]
fn parse_piv_info_strips_repeated_prefix() {
    let state = parse_piv_info("  Slot Slot 9e  \nSlot\n");
    assert_eq!(state.slots.len(), 1);
    assert_eq!(state.slots[0].slot, "9e");
}

#[test]
fn test_parse_piv_slot_presence_occupied() {
    let resp = [0xABu8, 0xCD, 0x90, 0x00];
    assert!(parse_piv_slot_presence(&resp));
}

#[test]
fn test_parse_piv_slot_presence_not_found() {
    let resp = [0x6Au8, 0x82];
    assert!(!parse_piv_slot_presence(&resp));
}

#[test]
fn extract_tlv_value_short_and_long_lengths() {
    let data = [0x01u8, 0x02, 0xAA, 0xBB, 0x53, 0x81, 0x03, 1, 2, 3];
    assert_eq!(extract_tlv_value(&data, 0x53), Some(vec![1, 2, 3]));
    assert_eq!(extract_tlv_value(&data, 0x01), Some(vec![0xAA, 0xBB]));
    assert_eq!(extract_tlv_value(&data, 0x70), None);
    assert_eq!(extract_tlv_value(&[0x53, 0x80, 0x00], 0x53), None);
    assert_eq!(extract_tlv_value(&[0x53, 0x05, 0x00], 0x53), None);
}

#[test]
fn oid_names() {
    assert_eq!(oid_to_algorithm_name("1.2.840.113549.1.1.11"), Some("RSA-SHA256"));
    assert_eq!(oid_to_algorithm_name("1.3.101.112"), Some("Ed25519"));
    assert_eq!(oid_to_algorithm_name("1.2.3"), None);
}

#[test]
fn common_name_prefers_cn_attribute() {
    let dn = DnFields {
        attributes: vec![
            ("2.5.4.6".to_string(), Some("US".to_string())),
            ("2.5.4.3".to_string(), None),
            ("2.5.4.3".to_string(), Some("Alice".to_string())),
        ],
        text: "C=US, CN=Alice".to_string(),
    };
    assert_eq!(dn_common_name(&dn), Some("Alice".to_string()));
    let dn = DnFields { attributes: vec![], text: "O=Acme".to_string() };
    assert_eq!(dn_common_name(&dn), Some("O=Acme".to_string()));
    let dn = DnFields { attributes: vec![], text: String::new() };
    assert_eq!(dn_common_name(&dn), None);
}

#[test]
fn slot_response_without_certificate() {
    assert!(slot_info_from_response("9a", &[0x6A, 0x82]).is_none());
    let info = slot_info_from_response("9c", &[0x53, 0x02, 0x70, 0x00, 0x90, 0x00]).unwrap();
    assert_eq!(info.slot, "9c");
    assert!(info.algorithm.is_none());
    assert!(parse_cert_info(&[0x30, 0x00]).is_none());
    let s = SlotInfo::occupied("9d");
    assert_eq!(s.slot, "9d");
}

#[test]
fn piv_get_data_command() {
    assert_eq!(
        piv_get_data_apdu(0x0A),
        vec![0x00, 0xCB, 0x3F, 0xFF, 0x05, 0x5C, 0x03, 0x5F, 0xC1, 0x0A]
    );
}
