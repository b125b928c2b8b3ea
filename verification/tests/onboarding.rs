use yubitui::model::fido2::Fido2State;
use yubitui::model::oath::{OathAlgorithm, OathCredential, OathState, OathType};
use yubitui::model::onboarding::is_factory_default;
use yubitui::model::pin::PinStatus;
use yubitui::model::piv::{PivState, SlotInfo};
use yubitui::model::{FormFactor, Model, Version, YubiKeyInfo, YubiKeyState};

fn base_yk() -> YubiKeyState {
    YubiKeyState {
        info: YubiKeyInfo {
            serial: 1234,
            version: Version { major: 5, minor: 4, patch: 3 },
            model: Model::YubiKey5NFC,
            form_factor: FormFactor::UsbA,
        },
        openpgp: None,
        oath: None,
        piv: None,
        fido2: None,
        otp: None,
        pin_status: pin_status(),
        touch_policies: None,
    }
}

fn pin_status() -> PinStatus {
    PinStatus {
        user_pin_retries: 3,
        admin_pin_retries: 3,
        reset_code_retries: 3,
        user_pin_blocked: false,
        admin_pin_blocked: false,
    }
}

fn empty_fido2() -> Fido2State {
    Fido2State {
        firmware_version: None,
        algorithms: vec![],
        pin_is_set: false,
        pin_retry_count: 8,
        supports_cred_mgmt: false,
        credentials: Some(vec![]),
    }
}

fn empty_oath() -> OathState {
    OathState { credentials: vec![], password_required: false }
}

fn empty_piv() -> PivState {
    PivState { slots: vec![] }
}

fn occupied_oath() -> OathState {
    OathState {
        password_required: false,
        credentials: vec![OathCredential {
            name: "test".to_string(),
            issuer: None,
            oath_type: OathType::Totp,
            algorithm: OathAlgorithm::Sha1,
            digits: 6,
            period: 30,
            touch_required: false,
            code: None,
        }],
    }
}

fn occupied_piv() -> PivState {
    PivState { slots: vec![SlotInfo::occupied("9a")] }
}

#[test]
fn test_factory_default_all_empty() {
    let mut yk = base_yk();
    yk.fido2 = Some(empty_fido2());
    yk.oath = Some(empty_oath());
    yk.piv = Some(empty_piv());
    assert!(is_factory_default(&yk));
}

#[test]
fn test_not_factory_default_pin_set() {
    let mut yk = base_yk();
    let mut fido2 = empty_fido2();
    fido2.pin_is_set = true;
    yk.fido2 = Some(fido2);
    yk.oath = Some(empty_oath());
    yk.piv = Some(empty_piv());
    assert!(!is_factory_default(&yk));
}

#[test]
fn test_not_factory_default_has_creds() {
    let mut yk = base_yk();
    yk.fido2 = Some(empty_fido2());
    yk.oath = Some(occupied_oath());
    yk.piv = Some(empty_piv());
    assert!(!is_factory_default(&yk));
}

#[test]
fn test_not_factory_default_piv_occupied() {
    let mut yk = base_yk();
    yk.fido2 = Some(empty_fido2());
    yk.oath = Some(empty_oath());
    yk.piv = Some(occupied_piv());
    assert!(!is_factory_default(&yk));
}

#[test]
fn test_none_fields_not_default() {
    let yk = base_yk();
    assert!(!is_factory_default(&yk));
}
