//! The protocol glossary: PIV, FIDO2, U2F, OpenPGP, SSH, TOTP, HOTP and OTP in
//! plain words.
use vstd::prelude::*;

verus! {

/// The glossary, as Markdown.
pub const GLOSSARY_MARKDOWN: &'static str = "# Protocol Glossary

## PIV (Personal Identity Verification)
Smart card standard for X.509 certificates and key storage. Used for
code signing, VPN auth, and Windows smart card login.

## FIDO2 / WebAuthn
Hardware passkey standard. Phishing-resistant -- the key verifies the
website's identity before responding. Replaces passwords entirely.

## FIDO U2F (Universal 2nd Factor)
Original FIDO standard. Adds a hardware second factor to password login.
Predecessor to FIDO2; still widely supported.

## OpenPGP / PGP
Encryption and signing standard. Your YubiKey stores private keys for
email encryption, git commit signing, and SSH authentication.

## SSH (Secure Shell)
Remote server access. YubiKey can hold your SSH private key via the
OpenPGP authentication subkey or PIV certificate.

## TOTP (Time-Based One-Time Password)
6-digit codes that change every 30 seconds. The standard behind Google
Authenticator, Authy, etc. YubiKey stores secrets on hardware.

## HOTP (HMAC-Based One-Time Password)
Counter-based codes. Each press generates the next code in sequence.
Less common than TOTP; used by some banking systems.

## OTP / Yubico OTP
Yubico's proprietary one-time password. The key types a 44-character
string validated by Yubico's cloud service (or self-hosted).
";

/// The actions of the screen (Escape, q and ? all go back).
#[derive(Debug, Clone, Copy, PartialEq, Eq, Structural)]
pub enum GlossaryScreenAction {
    Back,
}

/// The glossary screen.
#[derive(Debug, Clone, Copy, PartialEq, Eq, Structural)]
pub struct GlossaryScreen;

impl GlossaryScreen {
    /// The screen.
    pub fn new() -> (s: Self)
        ensures
            s == GlossaryScreen,
    {
        GlossaryScreen
    }

    /// The screen's header.
    pub fn title(&self) -> (s: &'static str)
        ensures
            s@ == "Protocol Glossary"@,
    {
        "Protocol Glossary"
    }

    /// The screen's text.
    pub fn markdown(&self) -> (s: &'static str)
        ensures
            s@ == GLOSSARY_MARKDOWN@,
    {
        GLOSSARY_MARKDOWN
    }

    /// Back closes the screen: the result says so.
    pub fn on_action(&self, action: GlossaryScreenAction) -> (close: bool)
        ensures
            close == (action == GlossaryScreenAction::Back),
    {
        match action {
            GlossaryScreenAction::Back => true,
        }
    }
}

} // verus!
