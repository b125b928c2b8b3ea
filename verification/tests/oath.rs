use yubitui::model::oath::{
    base32_decode, build_calculate_all_apdu, build_delete_apdu, build_put_apdu,
    calculate_timestep, parse_calculate_all_response, parse_list_response, parse_tlv,
    Base32Error, OathAlgorithm, OathCredential, OathType, TAG_NAME, TAG_TRUNCATED,
};

#[test]
fn test_oath_type_display() {
    assert_eq!(OathType::Totp.to_string(), "TOTP");
    assert_eq!(OathType::Hotp.to_string(), "HOTP");
}

#[test]
fn test_oath_algorithm_display() {
    assert_eq!(OathAlgorithm::Sha1.to_string(), "SHA-1");
    assert_eq!(OathAlgorithm::Sha256.to_string(), "SHA-256");
    assert_eq!(OathAlgorithm::Sha512.to_string(), "SHA-512");
}

#[test]
fn test_calculate_timestep() {
    let timestep = calculate_timestep(1711500000);
    let expected = (1711500000u64 / 30).to_be_bytes();
    assert_eq!(timestep, expected);
    // 1711500000 / 30 = 57050000 = 0x03668390
    assert_eq!(timestep, [0, 0, 0, 0, 3, 102, 131, 144]);
}

#[test]
fn test_oath_credential_default() {
    let cred = OathCredential::default();
    assert_eq!(cred.digits, 6);
    assert_eq!(cred.period, 30);
}

#[test]
fn test_parse_list_response() {
    let mut data = vec![TAG_NAME, 10];
    data.push(0x21);
    data.extend_from_slice(b"test:user");

    let creds = parse_list_response(&data);
    assert_eq!(creds.len(), 1);
    assert_eq!(creds[0].name, "test:user");
    assert_eq!(creds[0].oath_type, OathType::Totp);
    assert_eq!(creds[0].algorithm, OathAlgorithm::Sha1);
}

#[test]
fn test_parse_calculate_response() {
    let mut data = vec![TAG_NAME, 9];
    data.extend_from_slice(b"test:user");
    data.push(TAG_TRUNCATED);
    data.push(4);
    data.extend_from_slice(&[0x00, 0x01, 0xE2, 0x40]);

    let mut creds = vec![OathCredential {
        name: "test:user".to_string(),
        issuer: Some("test".to_string()),
        oath_type: OathType::Totp,
        algorithm: OathAlgorithm::Sha1,
        digits: 6,
        period: 30,
        code: None,
        touch_required: false,
    }];

    parse_calculate_all_response(&data, &mut creds);
    assert_eq!(creds[0].code, Some("123456".to_string()));
}

#[test]
fn test_base32_decode() {
    let result = base32_decode("JBSWY3DPEBLW64TMMQQQ====").unwrap();
    assert_eq!(result, b"Hello World!");
}

#[test]
fn base32_lowercase_and_invalid() {
    assert_eq!(base32_decode("jbswy3dp").unwrap(), b"Hello");
    assert_eq!(base32_decode("JBS1"), Err(Base32Error::InvalidChar('1')));
    assert_eq!(base32_decode("").unwrap(), Vec::<u8>::new());
}

#[test]
fn timestep_negative_time_wraps() {
    // -31 / 30 truncates to -1, which reads as u64::MAX.
    assert_eq!(calculate_timestep(-31), [0xFF; 8]);
    assert_eq!(calculate_timestep(-29), [0; 8]);
    assert_eq!(calculate_timestep(59), [0, 0, 0, 0, 0, 0, 0, 1]);
}

#[test]
fn tlv_long_length_and_truncation() {
    let mut data = vec![0x71, 0x81, 0x02, 0xAA, 0xBB, 0x76, 0x01, 0x05, 0x77, 0x05, 0x01];
    let items = parse_tlv(&data);
    assert_eq!(items, vec![(0x71, vec![0xAA, 0xBB]), (0x76, vec![0x05])]);
    data.clear();
    assert!(parse_tlv(&data).is_empty());
}

#[test]
fn list_response_hotp_sha256_issuer() {
    let mut data = vec![TAG_NAME, 8, 0x12];
    data.extend_from_slice(b"AWS:bob");
    data.extend_from_slice(&[TAG_NAME, 0]);
    let creds = parse_list_response(&data);
    assert_eq!(creds.len(), 1);
    assert_eq!(creds[0].oath_type, OathType::Hotp);
    assert_eq!(creds[0].algorithm, OathAlgorithm::Sha256);
    assert_eq!(creds[0].issuer, Some("AWS".to_string()));
}

#[test]
fn calculate_response_pads_and_truncates() {
    let mut data = vec![TAG_NAME, 1, b'x', TAG_TRUNCATED, 4, 0x00, 0x00, 0x00, 0x07];
    data.extend_from_slice(&[TAG_NAME, 1, b'y', TAG_TRUNCATED, 4, 0xFF, 0xFF, 0xFF, 0xFF]);
    let mut x = OathCredential::default();
    x.name = "x".to_string();
    let mut y = OathCredential::default();
    y.name = "y".to_string();
    y.digits = 8;
    let mut creds = vec![x, y];
    parse_calculate_all_response(&data, &mut creds);
    assert_eq!(creds[0].code, Some("000007".to_string()));
    // 4294967295 % 10^8 = 94967295
    assert_eq!(creds[1].code, Some("94967295".to_string()));
}

#[test]
fn apdu_builders() {
    let ts = calculate_timestep(1711500000);
    assert_eq!(
        build_calculate_all_apdu(ts),
        vec![0x00, 0xA4, 0x00, 0x01, 10, 0x74, 8, 0, 0, 0, 0, 3, 102, 131, 144]
    );
    assert_eq!(
        build_delete_apdu("ab"),
        vec![0x00, 0x02, 0x00, 0x00, 4, 0x71, 2, b'a', b'b']
    );
    assert_eq!(
        build_put_apdu("ab", &[1, 2], OathType::Hotp, OathAlgorithm::Sha512, 8),
        vec![0x00, 0x01, 0x00, 0x00, 10, 0x71, 2, b'a', b'b', 0x73, 4, 0x33, 8, 1, 2]
    );
}

#[test]
fn put_data_reads_back_as_name_and_key_items() {
    let secret = [0x48u8, 0x65, 0x6c, 0x6c, 0x6f];
    let put = build_put_apdu("GitHub:alice", &secret, OathType::Hotp, OathAlgorithm::Sha256, 6);
    let items = parse_tlv(&put[5..]);
    assert_eq!(items.len(), 2);
    assert_eq!(items[0], (0x71, b"GitHub:alice".to_vec()));
    assert_eq!(items[1], (0x73, vec![0x32, 6, 0x48, 0x65, 0x6c, 0x6c, 0x6f]));
    // The type/algorithm byte that PUT wrote, listed back by LIST.
    let mut list = vec![0x71u8, 13, items[1].1[0]];
    list.extend_from_slice(b"GitHub:alice");
    let creds = parse_list_response(&list);
    assert_eq!(creds.len(), 1);
    assert_eq!(creds[0].oath_type, OathType::Hotp);
    assert_eq!(creds[0].algorithm, OathAlgorithm::Sha256);
    assert_eq!(creds[0].name, "GitHub:alice");
}
