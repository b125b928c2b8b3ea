//! A fully configured device for the mock mode.
use vstd::prelude::*;
use vstd::string::*;
use crate::model::fido2::{fido2_views, Fido2Credential, Fido2CredentialView, Fido2State};
use crate::model::oath::{cred_views, OathAlgorithm, OathCredential, OathCredentialView, OathState, OathType};
use crate::model::openpgp::{KeyInfo, OpenPgpState};
use crate::model::pin::PinStatus;
use crate::model::piv::{slot_views, PivState, SlotInfo, SlotInfoView};
use crate::model::pin_operations::string_views;
use crate::model::touch_policy::{PolicyView, TouchPolicies, TouchPolicy};
use crate::model::{FormFactor, Model, Version, YubiKeyInfo, YubiKeyState};

verus! {

fn key_info(fingerprint: &str, key_attributes: &str) -> (k: KeyInfo)
    ensures
        k.fingerprint@ == fingerprint@,
        k.key_attributes@ == key_attributes@,
        k.created matches Some(c) && c@ == "2024-01-15"@,
{
    KeyInfo {
        fingerprint: fingerprint.to_owned(),
        created: Some(String::from_str("2024-01-15")),
        key_attributes: key_attributes.to_owned(),
    }
}

fn oath_credential(
    name: &str,
    issuer: &str,
    oath_type: OathType,
    algorithm: OathAlgorithm,
    period: u32,
    code: Option<&str>,
) -> (c: OathCredential)
    ensures
        c.name@ == name@,
        c.issuer matches Some(i) && i@ == issuer@,
        c.oath_type == oath_type,
        c.algorithm == algorithm,
        c.digits == 6,
        c.period == period,
        match code {
            Some(x) => c.code matches Some(y) && y@ == x@,
            None => c.code is None,
        },
        !c.touch_required,
{
    OathCredential {
        name: name.to_owned(),
        issuer: Some(issuer.to_owned()),
        oath_type,
        algorithm,
        digits: 6,
        period,
        code: match code {
            Some(s) => Some(s.to_owned()),
            None => None,
        },
        touch_required: false,
    }
}

/// The mock device's key in a slot: this fingerprint and these attributes,
/// created 2024-01-15.
pub open spec fn mock_key(k: Option<KeyInfo>, fingerprint: Seq<char>, attributes: Seq<char>) -> bool {
    k matches Some(x) && x.fingerprint@ == fingerprint && x.key_attributes@ == attributes && (
    x.created matches Some(c) && c@ == "2024-01-15"@)
}

/// A mock OATH account: 6 digits, no touch.
pub open spec fn mock_account(
    name: Seq<char>,
    issuer: Seq<char>,
    t: OathType,
    a: OathAlgorithm,
    period: u32,
    code: Option<Seq<char>>,
) -> OathCredentialView {
    OathCredentialView {
        name,
        issuer: Some(issuer),
        oath_type: t,
        algorithm: a,
        digits: 6,
        period,
        code,
        touch_required: false,
    }
}

/// The device of the mock mode: one YubiKey 5 NFC (serial 12345678, firmware
/// 5.4.3) with all three OpenPGP keys, three OATH accounts, PIV slot 9a, a
/// FIDO2 PIN with two passkeys, and touch on signing and authentication.
pub fn mock_yubikey_states() -> (v: Vec<YubiKeyState>)
    ensures
        v@.len() == 1,
        v@[0].info == (YubiKeyInfo {
            serial: 12345678,
            version: Version { major: 5, minor: 4, patch: 3 },
            model: Model::YubiKey5NFC,
            form_factor: FormFactor::UsbA,
        }),
        v@[0].openpgp matches Some(p) && p.card_present && p.version@ == "3.4"@
            && mock_key(p.signature_key, "A1B2C3D4E5F6A7B8C9D0E1F2A3B4C5D6E7F8A9B0"@, "EdDSA (Ed25519)"@)
            && mock_key(p.encryption_key, "B2C3D4E5F6A7B8C9D0E1F2A3B4C5D6E7F8A9B0A1"@, "ECDH (Cv25519)"@)
            && mock_key(p.authentication_key, "C3D4E5F6A7B8C9D0E1F2A3B4C5D6E7F8A9B0A1B2"@, "EdDSA (Ed25519)"@)
            && (p.cardholder_name matches Some(n) && n@ == "Mock User"@) && p.public_key_url is None,
        v@[0].oath matches Some(o) && !o.password_required && cred_views(o.credentials@) == seq![
            mock_account("GitHub:mockuser@github.com"@, "GitHub"@, OathType::Totp, OathAlgorithm::Sha1, 30, Some("123456"@)),
            mock_account("Google:mock@gmail.com"@, "Google"@, OathType::Totp, OathAlgorithm::Sha256, 30, Some("789012"@)),
            mock_account("AWS:mock-iam-user"@, "AWS"@, OathType::Hotp, OathAlgorithm::Sha1, 0, None),
        ],
        v@[0].piv matches Some(p) && slot_views(p.slots@) == seq![
            SlotInfoView {
                slot: "9a"@,
                algorithm: Some("ECCP256"@),
                subject: Some("Mock PIV Auth"@),
                issuer: None,
                validity: None,
            },
        ],
        v@[0].fido2 matches Some(f) && f.pin_is_set && f.pin_retry_count == 8 && f.supports_cred_mgmt
            && (f.firmware_version matches Some(fw) && fw@ == "5.4.3"@)
            && string_views(f.algorithms@) == seq!["ES256"@, "EdDSA"@]
            && (f.credentials matches Some(c) && fido2_views(c@) == seq![
            Fido2CredentialView {
                rp_id: "github.com"@,
                rp_name: Some("GitHub"@),
                user_name: "user@example.com"@,
                credential_id: seq![0x01u8, 0x02, 0x03, 0x04],
            },
            Fido2CredentialView {
                rp_id: "google.com"@,
                rp_name: Some("Google"@),
                user_name: "user@gmail.com"@,
                credential_id: seq![0x05u8, 0x06, 0x07, 0x08],
            },
        ]),
        v@[0].otp.is_none(),
        v@[0].pin_status == (PinStatus {
            user_pin_retries: 3,
            admin_pin_retries: 3,
            reset_code_retries: 0,
            user_pin_blocked: false,
            admin_pin_blocked: false,
        }),
        v@[0].touch_policies matches Some(t) && t@.signature == PolicyView::On && t@.encryption
            == PolicyView::Off && t@.authentication == PolicyView::On && t@.attestation == PolicyView::Off,
{
    let openpgp = OpenPgpState {
        card_present: true,
        version: String::from_str("3.4"),
        signature_key: Some(key_info("A1B2C3D4E5F6A7B8C9D0E1F2A3B4C5D6E7F8A9B0", "EdDSA (Ed25519)")),
        encryption_key: Some(key_info("B2C3D4E5F6A7B8C9D0E1F2A3B4C5D6E7F8A9B0A1", "ECDH (Cv25519)")),
        authentication_key: Some(key_info("C3D4E5F6A7B8C9D0E1F2A3B4C5D6E7F8A9B0A1B2", "EdDSA (Ed25519)")),
        cardholder_name: Some(String::from_str("Mock User")),
        public_key_url: None,
    };
    let oath = OathState {
        credentials: vec![
            oath_credential("GitHub:mockuser@github.com", "GitHub", OathType::Totp, OathAlgorithm::Sha1, 30, Some("123456")),
            oath_credential("Google:mock@gmail.com", "Google", OathType::Totp, OathAlgorithm::Sha256, 30, Some("789012")),
            oath_credential("AWS:mock-iam-user", "AWS", OathType::Hotp, OathAlgorithm::Sha1, 0, None),
        ],
        password_required: false,
    };
    let piv = PivState {
        slots: vec![
            SlotInfo {
                slot: String::from_str("9a"),
                algorithm: Some(String::from_str("ECCP256")),
                subject: Some(String::from_str("Mock PIV Auth")),
                issuer: None,
                validity: None,
            },
        ],
    };
    let fido2 = Fido2State {
        firmware_version: Some(String::from_str("5.4.3")),
        algorithms: vec![String::from_str("ES256"), String::from_str("EdDSA")],
        pin_is_set: true,
        pin_retry_count: 8,
        credentials: Some(
            vec![
                Fido2Credential {
                    rp_id: String::from_str("github.com"),
                    rp_name: Some(String::from_str("GitHub")),
                    user_name: String::from_str("user@example.com"),
                    credential_id: vec![0x01, 0x02, 0x03, 0x04],
                },
                Fido2Credential {
                    rp_id: String::from_str("google.com"),
                    rp_name: Some(String::from_str("Google")),
                    user_name: String::from_str("user@gmail.com"),
                    credential_id: vec![0x05, 0x06, 0x07, 0x08],
                },
            ],
        ),
        supports_cred_mgmt: true,
    };
    let state = YubiKeyState {
        info: YubiKeyInfo {
            serial: 12345678,
            version: Version { major: 5, minor: 4, patch: 3 },
            model: Model::YubiKey5NFC,
            form_factor: FormFactor::UsbA,
        },
        openpgp: Some(openpgp),
        oath: Some(oath),
        piv: Some(piv),
        fido2: Some(fido2),
        otp: None,
        pin_status: PinStatus {
            user_pin_retries: 3,
            admin_pin_retries: 3,
            reset_code_retries: 0,
            user_pin_blocked: false,
            admin_pin_blocked: false,
        },
        touch_policies: Some(
            TouchPolicies {
                signature: TouchPolicy::On,
                encryption: TouchPolicy::Off,
                authentication: TouchPolicy::On,
                attestation: TouchPolicy::Off,
            },
        ),
    };
    vec![state]
}

} // verus!
