//! OpenPGP applet state as the dashboard shows it.
use vstd::prelude::*;

verus! {

/// One OpenPGP key slot's key.
#[derive(Debug)]
pub struct KeyInfo {
    pub fingerprint: String,
    pub created: Option<String>,
    pub key_attributes: String,
}

/// The OpenPGP applet: version, the three keys and cardholder data.
#[derive(Debug)]
pub struct OpenPgpState {
    pub card_present: bool,
    pub version: String,
    pub signature_key: Option<KeyInfo>,
    pub encryption_key: Option<KeyInfo>,
    pub authentication_key: Option<KeyInfo>,
    pub cardholder_name: Option<String>,
    pub public_key_url: Option<String>,
}

} // verus!
