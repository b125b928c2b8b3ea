use yubitui::model::fido2::{
    ctaphid_init_report, ctaphid_reset_report, enumerate_credentials, fido2_device_error,
    get_fido2_info, is_fido_device_present, reset_channel_id, reset_outcome, CredentialEntry,
    Fido2Info, Fido2ResetError, RpCredentials,
};

#[test]
fn state_from_get_info() {
    let info = Fido2Info {
        options: vec![
            ("rk".to_string(), true),
            ("clientPin".to_string(), true),
            ("credentialMgmtPreview".to_string(), true),
        ],
        algorithms: vec![("public-key".to_string(), "ES256".to_string()), ("public-key".to_string(), "EdDSA".to_string())],
        firmware_version: 0x050403,
    };
    let s = get_fido2_info(&info, Some(8));
    assert_eq!(s.firmware_version.as_deref(), Some("5.4.3"));
    assert_eq!(s.algorithms, vec!["ES256".to_string(), "EdDSA".to_string()]);
    assert!(s.pin_is_set);
    assert_eq!(s.pin_retry_count, 8);
    assert!(s.supports_cred_mgmt);
    assert!(s.credentials.is_none());

    let info = Fido2Info {
        options: vec![("clientPin".to_string(), false), ("credMgmt".to_string(), false)],
        algorithms: vec![],
        firmware_version: 0,
    };
    let s = get_fido2_info(&info, Some(5));
    assert!(s.firmware_version.is_none());
    assert!(!s.pin_is_set);
    assert_eq!(s.pin_retry_count, 0);
    assert!(!s.supports_cred_mgmt);
}

#[test]
fn credentials_flattened() {
    let rps = vec![
        RpCredentials {
            rp_id: "github.com".to_string(),
            rp_name: "GitHub".to_string(),
            credentials: vec![CredentialEntry {
                user_name: "".to_string(),
                user_display_name: "Octo Cat".to_string(),
                credential_id: vec![1, 2],
            }],
        },
        RpCredentials {
            rp_id: "example.org".to_string(),
            rp_name: "".to_string(),
            credentials: vec![
                CredentialEntry { user_name: "a".to_string(), user_display_name: "A".to_string(), credential_id: vec![3] },
                CredentialEntry { user_name: "b".to_string(), user_display_name: "B".to_string(), credential_id: vec![4] },
            ],
        },
    ];
    let c = enumerate_credentials(&rps);
    assert_eq!(c.len(), 3);
    assert_eq!(c[0].user_name, "Octo Cat");
    assert_eq!(c[0].rp_name.as_deref(), Some("GitHub"));
    assert!(c[1].rp_name.is_none());
    assert_eq!(c[2].credential_id, vec![4]);
}

#[test]
fn device_presence_and_reset_frames() {
    assert!(is_fido_device_present(&[(0x0001, 0x06), (0xF1D0, 0x01)]));
    assert!(!is_fido_device_present(&[(0xF1D0, 0x02)]));
    let init = ctaphid_init_report();
    assert_eq!(init.len(), 65);
    assert_eq!(&init[..16], &[0, 0xFF, 0xFF, 0xFF, 0xFF, 0x86, 0, 8, 1, 2, 3, 4, 5, 6, 7, 8]);
    let mut resp = [0u8; 64];
    resp[15..19].copy_from_slice(&[9, 8, 7, 6]);
    assert_eq!(reset_channel_id(&resp, 17), Ok([9, 8, 7, 6]));
    assert_eq!(reset_channel_id(&resp, 16), Err(Fido2ResetError::InitTooShort(16)));
    let reset = ctaphid_reset_report(&[9, 8, 7, 6]);
    assert_eq!(&reset[..9], &[0, 9, 8, 7, 6, 0x90, 0, 1, 7]);
    assert!(reset[9..].iter().all(|b| *b == 0));
    let mut answer = [0u8; 64];
    assert_eq!(reset_outcome(&answer, 8), Ok(()));
    answer[7] = 0x2E;
    assert_eq!(reset_outcome(&answer, 64), Err(Fido2ResetError::NotAllowed));
    answer[7] = 0x27;
    assert_eq!(reset_outcome(&answer, 64).unwrap_err().to_string(), "Authenticator reset failed with CTAP2 error: 0x27");
    assert_eq!(reset_outcome(&answer, 3).unwrap_err().to_string(), "CTAPHID_CBOR response too short: 3 bytes");
}

#[test]
fn device_error_hint() {
    assert_eq!(fido2_device_error("boom"), "FIDO2 device error: boom");
    assert_eq!(
        fido2_device_error("Access denied"),
        "FIDO2 device error: Access denied — on Windows, run yubitui as Administrator (FIDO2/HID access requires elevated privileges)"
    );
}
