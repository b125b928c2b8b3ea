use sha2::{Digest, Sha256};
use yubitui::model::touch_policy::{
    set_touch_policy, TouchSetError, TouchSetStep, kdf_hash_pin, kdf_lengths_overflow, parse_kdf_do, parse_touch_policies, s2k_input_bytes,
    KdfError, TouchPolicies, TouchPolicy,
};

#[test]
fn test_parse_touch_policies_all_off() {
    let input = "Touch policies:\n  Signature key:      Off\n  Encryption key:     Off\n  Authentication key: Off\n  Attestation key:    Off\n";
    let p = parse_touch_policies(input);
    assert_eq!(p.signature, TouchPolicy::Off);
    assert_eq!(p.encryption, TouchPolicy::Off);
    assert_eq!(p.authentication, TouchPolicy::Off);
    assert_eq!(p.attestation, TouchPolicy::Off);
}

#[test]
fn test_parse_touch_policies_mixed() {
    let input = "Touch policies:\n  Signature key:      Fixed\n  Encryption key:     On\n  Authentication key: Cached\n  Attestation key:    Off\n";
    let p = parse_touch_policies(input);
    assert_eq!(p.signature, TouchPolicy::Fixed);
    assert_eq!(p.encryption, TouchPolicy::On);
    assert_eq!(p.authentication, TouchPolicy::Cached);
    assert_eq!(p.attestation, TouchPolicy::Off);
}

#[test]
fn test_parse_touch_policies_empty_string() {
    let p = parse_touch_policies("");
    assert_eq!(p, TouchPolicies::default());
}

#[test]
fn test_parse_touch_policies_no_section() {
    let input = "OpenPGP version: 3.4\n";
    let p = parse_touch_policies(input);
    assert_eq!(p, TouchPolicies::default());
}

#[test]
fn parse_touch_policies_stops_at_next_section() {
    let input = "Touch policies:\n  Signature key: On\n\n  Encryption key: Fixed\n";
    let p = parse_touch_policies(input);
    assert_eq!(p.signature, TouchPolicy::On);
    assert_eq!(p.encryption, TouchPolicy::Off);

    let input = "Touch policies:\nPIN tries remaining\n  Signature key: On\n";
    let p = parse_touch_policies(input);
    assert_eq!(p.signature, TouchPolicy::Off);

    let input = "Touch policies:\n\n  Signature key: cached-fixed\n";
    let p = parse_touch_policies(input);
    assert_eq!(p.signature, TouchPolicy::CachedFixed);
}

#[test]
fn test_touch_policy_from_str() {
    assert_eq!(TouchPolicy::from_str("off"), TouchPolicy::Off);
    assert_eq!(TouchPolicy::from_str("on"), TouchPolicy::On);
    assert_eq!(TouchPolicy::from_str("fixed"), TouchPolicy::Fixed);
    assert_eq!(TouchPolicy::from_str("cached"), TouchPolicy::Cached);
    assert_eq!(TouchPolicy::from_str("cached-fixed"), TouchPolicy::CachedFixed);
    assert_eq!(TouchPolicy::from_str("  Off  "), TouchPolicy::Off);
    assert_eq!(
        TouchPolicy::from_str("garbage"),
        TouchPolicy::Unknown("garbage".to_string())
    );
}

#[test]
fn touch_policy_from_str_lowercases_unknown() {
    assert_eq!(TouchPolicy::from_str(" MaYbE "), TouchPolicy::Unknown("maybe".to_string()));
}

#[test]
fn test_touch_policy_irreversible() {
    assert!(TouchPolicy::Fixed.is_irreversible());
    assert!(TouchPolicy::CachedFixed.is_irreversible());
    assert!(!TouchPolicy::On.is_irreversible());
    assert!(!TouchPolicy::Off.is_irreversible());
    assert!(!TouchPolicy::Cached.is_irreversible());
}

#[test]
fn test_touch_policy_as_ykman_arg() {
    assert_eq!(TouchPolicy::Off.as_ykman_arg(), "off");
    assert_eq!(TouchPolicy::On.as_ykman_arg(), "on");
    assert_eq!(TouchPolicy::Fixed.as_ykman_arg(), "fixed");
    assert_eq!(TouchPolicy::Cached.as_ykman_arg(), "cached");
    assert_eq!(TouchPolicy::CachedFixed.as_ykman_arg(), "cached-fixed");
}

#[test]
fn test_from_byte_all_variants() {
    assert_eq!(TouchPolicy::from_byte(0x00), TouchPolicy::Off);
    assert_eq!(TouchPolicy::from_byte(0x01), TouchPolicy::On);
    assert_eq!(TouchPolicy::from_byte(0x02), TouchPolicy::Fixed);
    assert_eq!(TouchPolicy::from_byte(0x03), TouchPolicy::Cached);
    assert_eq!(TouchPolicy::from_byte(0x04), TouchPolicy::CachedFixed);
    assert_eq!(TouchPolicy::from_byte(0xFF), TouchPolicy::Unknown("0xFF".to_string()));
}

#[test]
fn test_to_byte_roundtrip() {
    assert_eq!(TouchPolicy::Off.to_byte(), 0x00);
    assert_eq!(TouchPolicy::On.to_byte(), 0x01);
    assert_eq!(TouchPolicy::Fixed.to_byte(), 0x02);
    assert_eq!(TouchPolicy::Cached.to_byte(), 0x03);
    assert_eq!(TouchPolicy::CachedFixed.to_byte(), 0x04);
    for b in [0x00u8, 0x01, 0x02, 0x03, 0x04] {
        assert_eq!(TouchPolicy::from_byte(b).to_byte(), b);
    }
}

#[test]
fn touch_policy_display_text() {
    assert_eq!(TouchPolicy::Fixed.to_string(), "Fixed (IRREVERSIBLE)");
    assert_eq!(TouchPolicy::Unknown("x".to_string()).to_string(), "Unknown(x)");
    assert_eq!(TouchPolicy::from_byte(0x1a).to_string(), "Unknown(0x1A)");
}

fn make_kdf_do(count: u32, salt_pw3: &[u8]) -> Vec<u8> {
    let mut out = Vec::new();
    out.extend_from_slice(&[0x81, 0x01, 0x03]);
    out.extend_from_slice(&[0x82, 0x01, 0x08]);
    let count_bytes = count.to_be_bytes();
    out.extend_from_slice(&[0x83, 0x04]);
    out.extend_from_slice(&count_bytes);
    out.push(0x86);
    out.push(salt_pw3.len() as u8);
    out.extend_from_slice(salt_pw3);
    out
}

#[test]
fn test_parse_kdf_do_inactive_empty() {
    let result = parse_kdf_do(&[]).unwrap();
    assert!(result.is_none());
}

#[test]
fn test_parse_kdf_do_inactive_zero_byte() {
    let result = parse_kdf_do(&[0x00]).unwrap();
    assert!(result.is_none());
}

#[test]
fn test_parse_kdf_do_active() {
    let salt = [0x01u8, 0x02, 0x03, 0x04, 0x05, 0x06, 0x07, 0x08];
    let kdf_data = make_kdf_do(1024, &salt);
    let kdf = parse_kdf_do(&kdf_data).unwrap().expect("should be active");
    assert_eq!(kdf.hash_algo, 0x08);
    assert_eq!(kdf.iteration_count, 1024);
    assert_eq!(kdf.salt_pw3, salt);
}

#[test]
fn parse_kdf_do_errors() {
    assert_eq!(parse_kdf_do(&[0x81, 0x01, 0x00, 0x82, 0x01, 0x08]).unwrap().is_none(), true);
    assert_eq!(parse_kdf_do(&[0x82, 0x85, 0x01]).err(), Some(KdfError::LengthFieldTruncated));
    assert_eq!(
        parse_kdf_do(&[0x82, 0x05, 0x01]).err(),
        Some(KdfError::ValueTruncated { tag: 0x82, len: 5 })
    );
    assert_eq!(parse_kdf_do(&[0x83, 0x04, 0, 0, 4, 0]).err(), Some(KdfError::MissingHashAlgorithm));
    assert_eq!(
        parse_kdf_do(&[0x82, 0x01, 0x08, 0x86, 0x00]).err(),
        Some(KdfError::MissingIterationCount)
    );
    assert_eq!(
        parse_kdf_do(&[0x82, 0x01, 0x08, 0x83, 0x04, 0, 0, 4, 0]).err(),
        Some(KdfError::MissingPw3Salt)
    );
    assert_eq!(
        KdfError::ValueTruncated { tag: 0x86, len: 12 }.to_string(),
        "KDF-DO TLV value truncated (tag=0x86 len=12)"
    );
}

#[test]
fn parse_kdf_do_long_form_length() {
    let data = [0x82u8, 0x81, 0x01, 0x08, 0x83, 0x82, 0x00, 0x04, 0, 0, 0, 16, 0x86, 0x01, 0xAA];
    let kdf = parse_kdf_do(&data).unwrap().unwrap();
    assert_eq!(kdf.hash_algo, 8);
    assert_eq!(kdf.iteration_count, 16);
    assert_eq!(kdf.salt_pw3, vec![0xAA]);
    assert!(!kdf_lengths_overflow(&data));
    let huge = [0x82u8, 0x88, 0xFF, 0xFF, 0xFF, 0xFF, 0xFF, 0xFF, 0xFF, 0xFF];
    assert!(kdf_lengths_overflow(&huge));
}

#[test]
fn test_kdf_hash_pin_known_vector() {
    let salt = [0xAAu8; 8];
    let pin = b"12345678";
    let count: u32 = 16;
    let kdf_data = make_kdf_do(count, &salt);

    let hash = kdf_hash_pin(&kdf_data, pin).unwrap();
    assert_eq!(hash.len(), 32, "SHA-256 output must be 32 bytes");

    let mut input = Vec::new();
    input.extend_from_slice(&salt);
    input.extend_from_slice(pin);
    let expected = Sha256::digest(&input).to_vec();
    assert_eq!(hash, expected);
}

#[test]
fn test_kdf_hash_pin_repeated_input() {
    let salt = [0xBBu8; 8];
    let pin = b"adminpin";
    let count: u32 = 32;
    let kdf_data = make_kdf_do(count, &salt);

    let hash = kdf_hash_pin(&kdf_data, pin).unwrap();
    assert_eq!(hash.len(), 32);

    let unit: Vec<u8> = salt.iter().chain(pin.iter()).copied().collect();
    let data: Vec<u8> = unit.iter().chain(unit.iter()).copied().collect();
    let expected = Sha256::digest(&data).to_vec();
    assert_eq!(hash, expected);
}

#[test]
fn test_kdf_hash_pin_partial_last_chunk() {
    let salt = [0xCCu8; 8];
    let pin = b"shortpin";
    let count: u32 = 20;
    let kdf_data = make_kdf_do(count, &salt);

    let hash = kdf_hash_pin(&kdf_data, pin).unwrap();
    assert_eq!(hash.len(), 32);

    let unit: Vec<u8> = salt.iter().chain(pin.iter()).copied().collect();
    let data: Vec<u8> = unit.iter().chain(unit[..4].iter()).copied().collect();
    let expected = Sha256::digest(&data).to_vec();
    assert_eq!(hash, expected);
}

#[test]
fn test_kdf_hash_pin_unsupported_algo() {
    let salt = [0x01u8; 8];
    let mut kdf_data = make_kdf_do(16, &salt);
    if let Some(pos) = kdf_data.windows(2).position(|w| w == [0x82, 0x01]) {
        kdf_data[pos + 2] = 0x09;
    }
    let result = kdf_hash_pin(&kdf_data, b"pin");
    assert!(result.is_err());
    let msg = result.unwrap_err().to_string();
    assert!(msg.contains("Unsupported"), "expected unsupported algo error, got: {msg}");
}

#[test]
fn kdf_hash_pin_other_errors() {
    assert_eq!(kdf_hash_pin(&[], b"1").err(), Some(KdfError::NotActive));
    let kdf_data = make_kdf_do(65_011_713, &[1, 2]);
    let e = kdf_hash_pin(&kdf_data, b"1").unwrap_err();
    assert_eq!(e, KdfError::IterationCountTooLarge(65_011_713));
    assert_eq!(e.to_string(), "KDF iteration count 65011713 exceeds maximum 65011712");
}

#[test]
fn s2k_input_repeats_unit() {
    assert_eq!(s2k_input_bytes(&[1, 2, 3], 7), vec![1, 2, 3, 1, 2, 3, 1]);
    assert_eq!(s2k_input_bytes(&[1, 2, 3], 0), Vec::<u8>::new());
    assert_eq!(s2k_input_bytes(&[9], 3), vec![9, 9, 9]);
}

#[test]
fn touch_policy_session_without_kdf() {
    assert_eq!(
        set_touch_policy("xyz", &TouchPolicy::On, None, "1").err(),
        Some("Invalid slot 'xyz'. Must be one of: sig, enc, aut, att".to_string())
    );
    let (mut s, first) = set_touch_policy("aut", &TouchPolicy::Cached, Some(1), "12345678").unwrap();
    assert!(matches!(first, TouchSetStep::GetData(0xF9)));
    match s.step(None) {
        TouchSetStep::Transmit(a) => assert_eq!(a, [&[0x00u8, 0x20, 0x00, 0x83, 8][..], b"12345678"].concat()),
        other => panic!("unexpected {other:?}"),
    }
    match s.step(Some(&[0x90, 0x00])) {
        TouchSetStep::Transmit(a) => assert_eq!(a, vec![0x00, 0xDA, 0x00, 0xD8, 0x02, 0x03, 0x20]),
        other => panic!("unexpected {other:?}"),
    }
    assert!(matches!(s.step(Some(&[0x90, 0x00])), TouchSetStep::GetData(0xD8)));
    match s.step(Some(&[0x03, 0x20])) {
        TouchSetStep::Done(m) => assert_eq!(m, "Touch policy set to Cached for slot aut [VERIFY=0x9000 PUT=0x9000 readback=0x03]"),
        other => panic!("unexpected {other:?}"),
    }
    assert!(matches!(s.step(None), TouchSetStep::Failed(TouchSetError::SessionOver)));
}

#[test]
fn touch_policy_session_with_kdf() {
    let kdf = make_kdf_do(16, &[0xAA; 8]);
    let (mut s, _) = set_touch_policy("sig", &TouchPolicy::On, None, "12345678").unwrap();
    let mut input = vec![0xAAu8; 8];
    input.extend_from_slice(b"12345678");
    let hashed = Sha256::digest(&input).to_vec();
    match s.step(Some(&kdf)) {
        TouchSetStep::Transmit(a) => assert_eq!(a, [&[0x00u8, 0x20, 0x00, 0x83, 32][..], &hashed[..]].concat()),
        other => panic!("unexpected {other:?}"),
    }
    assert!(matches!(s.step(Some(&[0x69, 0x82])), TouchSetStep::Failed(TouchSetError::VerifyFailed(0x6982))));
    let (mut s, _) = set_touch_policy("att", &TouchPolicy::Off, None, "").unwrap();
    let empty_salt = make_kdf_do(16, &[]);
    assert!(matches!(s.step(Some(&empty_salt)), TouchSetStep::Failed(TouchSetError::KdfEmptyInput)));
}

#[test]
fn parse_kdf_do_first_byte_zero_inactive() {
    assert!(parse_kdf_do(&[0x00, 0x82, 0x01, 0x08]).unwrap().is_none());
}
