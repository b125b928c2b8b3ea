//! PIV slot deletion and management-key change: the 3DES challenge-response
//! that authenticates the management key, and the APDUs that follow it.
use vstd::prelude::*;
use vstd::string::*;
use cipher::{BlockCipherEncrypt, KeyInit};
use crate::model::Version;
use crate::model::card::{apdu_sw, status_word};
use crate::model::oath::push_bytes;
use crate::text::{chars_of, is_literal};

verus! {

/// The well-known default PIV management key (3DES): 01..08 three times.
pub const PIV_DEFAULT_MGMT_KEY_3DES: [u8; 24] = [
    0x01, 0x02, 0x03, 0x04, 0x05, 0x06, 0x07, 0x08,
    0x01, 0x02, 0x03, 0x04, 0x05, 0x06, 0x07, 0x08,
    0x01, 0x02, 0x03, 0x04, 0x05, 0x06, 0x07, 0x08,
];

/// The standard PIV key slots.
#[derive(Debug, Clone, Copy, PartialEq, Eq, Structural)]
pub enum PivSlot {
    /// 9a: PIV authentication.
    Authentication,
    /// 9c: digital signature.
    Signature,
    /// 9d: key management.
    KeyManagement,
    /// 9e: card authentication (no PIN).
    CardAuth,
}

impl PivSlot {
    /// The slot's certificate data object tag (NIST SP 800-73-4).
    pub open spec fn object_id(self) -> Seq<u8> {
        match self {
            PivSlot::Authentication => seq![0x5Fu8, 0xC1, 0x05],
            PivSlot::Signature => seq![0x5Fu8, 0xC1, 0x0A],
            PivSlot::KeyManagement => seq![0x5Fu8, 0xC1, 0x0B],
            PivSlot::CardAuth => seq![0x5Fu8, 0xC1, 0x01],
        }
    }

    /// The slot's key reference.
    pub open spec fn id(self) -> u8 {
        match self {
            PivSlot::Authentication => 0x9A,
            PivSlot::Signature => 0x9C,
            PivSlot::KeyManagement => 0x9D,
            PivSlot::CardAuth => 0x9E,
        }
    }

    /// The slot's display name.
    pub open spec fn name(self) -> Seq<char> {
        match self {
            PivSlot::Authentication => "Authentication (9a)"@,
            PivSlot::Signature => "Digital Signature (9c)"@,
            PivSlot::KeyManagement => "Key Management (9d)"@,
            PivSlot::CardAuth => "Card Authentication (9e)"@,
        }
    }

    /// The three-byte data object tag of the slot's certificate.
    pub fn object_id_bytes(&self) -> (r: Vec<u8>)
        ensures
            r@ == self.object_id(),
    {
        let r = match self {
            PivSlot::Authentication => vec![0x5Fu8, 0xC1, 0x05],
            PivSlot::Signature => vec![0x5Fu8, 0xC1, 0x0A],
            PivSlot::KeyManagement => vec![0x5Fu8, 0xC1, 0x0B],
            PivSlot::CardAuth => vec![0x5Fu8, 0xC1, 0x01],
        };
        assert(r@ =~= self.object_id());
        r
    }

    /// The one-byte key reference (P2 of GENERAL AUTHENTICATE, MOVE KEY).
    pub fn slot_id(&self) -> (b: u8)
        ensures
            b == self.id(),
    {
        match self {
            PivSlot::Authentication => 0x9A,
            PivSlot::Signature => 0x9C,
            PivSlot::KeyManagement => 0x9D,
            PivSlot::CardAuth => 0x9E,
        }
    }

    /// Human-readable name of the slot.
    pub fn display_name(&self) -> (s: &'static str)
        ensures
            s@ == self.name(),
    {
        match self {
            PivSlot::Authentication => "Authentication (9a)",
            PivSlot::Signature => "Digital Signature (9c)",
            PivSlot::KeyManagement => "Key Management (9d)",
            PivSlot::CardAuth => "Card Authentication (9e)",
        }
    }

    /// The slot's short name.
    pub open spec fn short(self) -> Seq<char> {
        match self {
            PivSlot::Authentication => "9a"@,
            PivSlot::Signature => "9c"@,
            PivSlot::KeyManagement => "9d"@,
            PivSlot::CardAuth => "9e"@,
        }
    }

    /// The slot named `9a`, `9c`, `9d` or `9e`.
    pub fn from_slot_str(s: &str) -> (r: Option<Self>)
        ensures
            r == slot_named(s@),
    {
        let v = chars_of(s);
        if is_literal(&v, "9a") {
            Some(PivSlot::Authentication)
        } else if is_literal(&v, "9c") {
            Some(PivSlot::Signature)
        } else if is_literal(&v, "9d") {
            Some(PivSlot::KeyManagement)
        } else if is_literal(&v, "9e") {
            Some(PivSlot::CardAuth)
        } else {
            None
        }
    }
}

/// The slot a short name names.
pub open spec fn slot_named(s: Seq<char>) -> Option<PivSlot> {
    if s == "9a"@ {
        Some(PivSlot::Authentication)
    } else if s == "9c"@ {
        Some(PivSlot::Signature)
    } else if s == "9d"@ {
        Some(PivSlot::KeyManagement)
    } else if s == "9e"@ {
        Some(PivSlot::CardAuth)
    } else {
        None
    }
}

/// Every slot is found again by its short name, and its display name shows
/// that short name.
pub proof fn lemma_slot_names(slot: PivSlot)
    ensures
        slot_named(slot.short()) == Some(slot),
        crate::text::contains(slot.name(), slot.short()),
{
    reveal_strlit("9a");
    reveal_strlit("9c");
    reveal_strlit("9d");
    reveal_strlit("9e");
    reveal_strlit("Authentication (9a)");
    reveal_strlit("Digital Signature (9c)");
    reveal_strlit("Key Management (9d)");
    reveal_strlit("Card Authentication (9e)");
    assert("9a"@[1] == 'a' && "9c"@[1] == 'c' && "9d"@[1] == 'd' && "9e"@[1] == 'e');
    let k: int = match slot {
        PivSlot::Authentication => 16,
        PivSlot::Signature => 19,
        PivSlot::KeyManagement => 16,
        PivSlot::CardAuth => 21,
    };
    assert(slot.name().subrange(k, k + 2) =~= slot.short());
    assert(crate::text::occurs_at(slot.name(), slot.short(), k));
}

/// MOVE KEY, and so key deletion, needs firmware 5.7.0 or newer.
pub open spec fn key_delete_allowed(fw: Version) -> bool {
    !(fw.major < 5 || (fw.major == 5 && fw.minor < 7))
}

/// The firmware can delete PIV keys (5.7.0 or newer).
pub fn key_delete_supported(fw: &Version) -> (b: bool)
    ensures
        b == key_delete_allowed(*fw),
{
    !(fw.major < 5 || (fw.major == 5 && fw.minor < 7))
}

/// Why a PIV operation failed.
#[derive(Debug, Clone, Copy, PartialEq, Eq, Structural)]
pub enum PivError {
    /// SELECT of the PIV applet failed before a deletion.
    PivNotAvailable,
    /// SELECT of the PIV applet failed before a key change.
    PivNotFound,
    /// The challenge request was answered with this status.
    ChallengeRequestFailed(u16),
    /// The challenge response had only this many bytes.
    ChallengeTooShort(usize),
    /// The card rejected the encrypted challenge.
    ManagementKeyRejected,
    /// Deleting the certificate was answered with this status.
    CertificateDeleteFailed(u16),
    /// SET MANAGEMENT KEY: wrong current key.
    WrongCurrentKey,
    /// SET MANAGEMENT KEY: the new key is malformed.
    InvalidNewKey,
    /// SET MANAGEMENT KEY was answered with this status.
    SetManagementKeyFailed(u16),
    /// The session had already ended.
    SessionOver,
}

/// GENERAL AUTHENTICATE asking for a 3DES challenge (witness 81 empty).
pub open spec fn challenge_request_apdu() -> Seq<u8> {
    seq![0x00u8, 0x87, 0x03, 0x9B, 0x04, 0x7C, 0x02, 0x81, 0x00]
}

/// GENERAL AUTHENTICATE answering the challenge with `enc` (tag 82).
pub open spec fn challenge_answer_apdu(enc: Seq<u8>) -> Seq<u8> {
    seq![0x00u8, 0x87, 0x03, 0x9B, 0x0C, 0x7C, 0x0A, 0x82, 0x08] + enc
}

/// PUT DATA clearing the slot's certificate object (an empty 0x53 value).
pub open spec fn delete_certificate_apdu(slot: PivSlot) -> Seq<u8> {
    seq![0x00u8, 0xDB, 0x3F, 0xFF, 0x07, 0x5C, 0x03] + slot.object_id() + seq![0x53u8, 0x00]
}

/// MOVE KEY with destination 0xFF: delete the slot's key in place.
pub open spec fn delete_key_apdu(slot: PivSlot) -> Seq<u8> {
    seq![0x00u8, 0xF6, 0xFF, slot.id()]
}

/// Why a key cannot be deleted on old firmware.
pub open spec fn key_delete_refusal(fw: Version) -> Seq<char> {
    "PIV key deletion requires firmware 5.7.0 or newer (this device has "@ + fw.text()
        + "). Only the certificate was deleted."@
}

/// The key deletion of a slot: on firmware older than 5.7.0 the refusal, with
/// nothing to send; else the MOVE KEY command `00 F6 FF <slot>` to send with the
/// management key authenticated.
pub fn delete_piv_key(slot: PivSlot, firmware: &Version) -> (r: Result<Vec<u8>, String>)
    ensures
        key_delete_allowed(*firmware) <==> r is Ok,
        r matches Ok(a) ==> a@ == delete_key_apdu(slot),
        r matches Err(e) ==> e@ == key_delete_refusal(*firmware),
{
    if firmware.major < 5 || (firmware.major == 5 && firmware.minor < 7) {
        let mut e = String::from_str("PIV key deletion requires firmware 5.7.0 or newer (this device has ");
        let v = firmware.to_string();
        e.append(v.as_str());
        e.append("). Only the certificate was deleted.");
        return Err(e);
    }
    let a = vec![0x00u8, 0xF6, 0xFF, slot.slot_id()];
    assert(a@ =~= delete_key_apdu(slot));
    Ok(a)
}

/// SET MANAGEMENT KEY to a new 3DES key (tag 9B, algorithm 03, 24 bytes).
pub open spec fn set_management_key_apdu(key: Seq<u8>) -> Seq<u8> {
    seq![0x00u8, 0xFF, 0xFF, 0xFE, 0x1C, 0x9B, 0x03, 0x18] + key
}

/// What 3DES-EDE encryption of one block under a 24-byte key gives.
pub uninterp spec fn tdes_ede3_encrypt(key: Seq<u8>, block: Seq<u8>) -> Seq<u8>;

/// `des::TdesEde3` with `cipher`'s `KeyInit::new` and `encrypt_block`: one 8-byte
/// block encrypted with 3DES-EDE (ECB). The result is named.
#[verifier::external_body]
fn tdes_encrypt_block(key: &[u8; 24], block: &[u8; 8]) -> (r: [u8; 8])
    ensures
        r@ == tdes_ede3_encrypt(key@, block@),
{
    let c = des::TdesEde3::new(&cipher::Array::from(*key));
    let mut b = cipher::Array::from(*block);
    c.encrypt_block(&mut b);
    b.into()
}

/// The answer to a challenge response: an error unless the status is 0x9000 and
/// the response has 14 bytes or more; else the answer APDU with the 8-byte
/// challenge (bytes 4 to 11) encrypted under the management key.
pub open spec fn challenge_answer(resp: Seq<u8>, key: Seq<u8>) -> Result<Seq<u8>, PivError> {
    if status_word(resp) != 0x9000 {
        Err(PivError::ChallengeRequestFailed(status_word(resp)))
    } else if resp.len() < 14 {
        Err(PivError::ChallengeTooShort(resp.len() as usize))
    } else {
        Ok(challenge_answer_apdu(tdes_ede3_encrypt(key, resp.subrange(4, 12))))
    }
}

/// Answers the card's challenge (see [`challenge_answer`]).
pub fn answer_challenge(resp: &[u8], key: &[u8; 24]) -> (r: Result<Vec<u8>, PivError>)
    ensures
        match r {
            Ok(a) => challenge_answer(resp@, key@) == Ok::<Seq<u8>, PivError>(a@),
            Err(e) => challenge_answer(resp@, key@) == Err::<Seq<u8>, PivError>(e),
        },
{
    let sw = apdu_sw(resp);
    if sw != 0x9000 {
        return Err(PivError::ChallengeRequestFailed(sw));
    }
    if resp.len() < 14 {
        return Err(PivError::ChallengeTooShort(resp.len()));
    }
    let challenge: [u8; 8] = [resp[4], resp[5], resp[6], resp[7], resp[8], resp[9], resp[10], resp[11]];
    assert(challenge@ =~= resp@.subrange(4, 12));
    let enc = tdes_encrypt_block(key, &challenge);
    let mut apdu = vec![0x00u8, 0x87, 0x03, 0x9B, 0x0C, 0x7C, 0x0A, 0x82, 0x08];
    push_bytes(&mut apdu, &enc);
    assert(apdu@ =~= challenge_answer_apdu(enc@));
    Ok(apdu)
}

/// The outcome of SET MANAGEMENT KEY by its status word.
pub open spec fn set_key_outcome(sw: u16) -> Result<(), PivError> {
    if sw == 0x9000 {
        Ok(())
    } else if sw == 0x6982 {
        Err(PivError::WrongCurrentKey)
    } else if sw == 0x6A80 {
        Err(PivError::InvalidNewKey)
    } else {
        Err(PivError::SetManagementKeyFailed(sw))
    }
}

/// The message after a slot deletion.
pub open spec fn deletion_message(slot: PivSlot, key_deleted: bool, fw: Version) -> Seq<char> {
    if key_deleted {
        "Certificate and key deleted from slot "@ + slot.name() + "."@
    } else {
        "Certificate deleted from slot "@ + slot.name()
            + ". Key deletion requires firmware 5.7+ (yours is "@ + fw.text() + ")."@
    }
}

/// The message after a slot deletion (see [`deletion_message`]).
pub fn delete_slot_message(slot: PivSlot, key_deleted: bool, fw: &Version) -> (s: String)
    ensures
        s@ == deletion_message(slot, key_deleted, *fw),
{
    if key_deleted {
        let mut s = String::from_str("Certificate and key deleted from slot ");
        s.append(slot.display_name());
        s.append(".");
        s
    } else {
        let mut s = String::from_str("Certificate deleted from slot ");
        s.append(slot.display_name());
        s.append(". Key deletion requires firmware 5.7+ (yours is ");
        let v = fw.to_string();
        s.append(v.as_str());
        s.append(").");
        s
    }
}

/// What a PIV session is for.
#[derive(Debug, Clone, Copy)]
pub enum PivPurpose {
    /// Delete the certificate, and the key where the firmware allows it.
    DeleteSlot { slot: PivSlot, firmware: Version },
    /// Replace the management key.
    ChangeKey { new_key: [u8; 24] },
}

/// The response a PIV session waits for.
#[derive(Debug, Clone, Copy, PartialEq, Eq, Structural)]
pub enum PivStage {
    AwaitSelect,
    AwaitChallenge,
    AwaitAuth,
    AwaitCertDelete,
    AwaitKeyDelete,
    AwaitSetKey,
    Over,
}

/// A PIV session: SELECT, management-key authentication, then the purpose's
/// commands. The caller transmits each APDU and hands back the response.
pub struct PivSession {
    pub purpose: PivPurpose,
    pub mgmt_key: [u8; 24],
    pub stage: PivStage,
}

/// What the caller does next.
#[derive(Debug)]
pub enum PivStep {
    /// Transmit this APDU and hand back the response.
    Transmit(Vec<u8>),
    /// The deletion is over; show this message.
    Done(String),
    /// The key change succeeded.
    Completed,
    /// The session failed.
    Failed(PivError),
}

/// The mathematical value of a [`PivStep`].
pub enum PivStepView {
    Transmit(Seq<u8>),
    Done(Seq<char>),
    Completed,
    Failed(PivError),
}

impl View for PivStep {
    type V = PivStepView;

    open spec fn view(&self) -> PivStepView {
        match self {
            PivStep::Transmit(a) => PivStepView::Transmit(a@),
            PivStep::Done(m) => PivStepView::Done(m@),
            PivStep::Completed => PivStepView::Completed,
            PivStep::Failed(e) => PivStepView::Failed(*e),
        }
    }
}

/// The next stage and step of a session that receives `resp` in `stage`.
pub open spec fn piv_next(purpose: PivPurpose, key: [u8; 24], stage: PivStage, resp: Seq<u8>) -> (
    PivStage,
    PivStepView,
) {
    let sw = status_word(resp);
    match stage {
        PivStage::AwaitSelect => if sw != 0x9000 {
            (
                PivStage::Over,
                PivStepView::Failed(
                    if purpose is DeleteSlot {
                        PivError::PivNotAvailable
                    } else {
                        PivError::PivNotFound
                    },
                ),
            )
        } else {
            (PivStage::AwaitChallenge, PivStepView::Transmit(challenge_request_apdu()))
        },
        PivStage::AwaitChallenge => match challenge_answer(resp, key@) {
            Ok(a) => (PivStage::AwaitAuth, PivStepView::Transmit(a)),
            Err(e) => (PivStage::Over, PivStepView::Failed(e)),
        },
        PivStage::AwaitAuth => if sw != 0x9000 {
            (PivStage::Over, PivStepView::Failed(PivError::ManagementKeyRejected))
        } else {
            match purpose {
                PivPurpose::DeleteSlot { slot, .. } => (
                    PivStage::AwaitCertDelete,
                    PivStepView::Transmit(delete_certificate_apdu(slot)),
                ),
                PivPurpose::ChangeKey { new_key } => (
                    PivStage::AwaitSetKey,
                    PivStepView::Transmit(set_management_key_apdu(new_key@)),
                ),
            }
        },
        PivStage::AwaitCertDelete => match purpose {
            PivPurpose::DeleteSlot { slot, firmware } => if sw != 0x9000 {
                (PivStage::Over, PivStepView::Failed(PivError::CertificateDeleteFailed(sw)))
            } else if key_delete_allowed(firmware) {
                (PivStage::AwaitKeyDelete, PivStepView::Transmit(delete_key_apdu(slot)))
            } else {
                (PivStage::Over, PivStepView::Done(deletion_message(slot, false, firmware)))
            },
            PivPurpose::ChangeKey { .. } => (PivStage::Over, PivStepView::Failed(PivError::SessionOver)),
        },
        PivStage::AwaitKeyDelete => match purpose {
            PivPurpose::DeleteSlot { slot, firmware } => (
                PivStage::Over,
                PivStepView::Done(deletion_message(slot, sw == 0x9000, firmware)),
            ),
            PivPurpose::ChangeKey { .. } => (PivStage::Over, PivStepView::Failed(PivError::SessionOver)),
        },
        PivStage::AwaitSetKey => match set_key_outcome(sw) {
            Ok(()) => (PivStage::Over, PivStepView::Completed),
            Err(e) => (PivStage::Over, PivStepView::Failed(e)),
        },
        PivStage::Over => (PivStage::Over, PivStepView::Failed(PivError::SessionOver)),
    }
}

/// SELECT of the PIV applet.
fn select_piv() -> (r: Vec<u8>)
    ensures
        r@ == crate::model::card::select_piv_apdu(),
{
    crate::model::card::select_apdu(crate::model::card::Applet::Piv)
}

impl PivSession {
    /// A session that deletes the slot's certificate (and key, on firmware 5.7
    /// or newer); transmit the returned SELECT first.
    pub fn delete_slot(slot: PivSlot, mgmt_key: &[u8; 24], firmware: &Version) -> (r: (Self, Vec<u8>))
        ensures
            r.0.purpose == (PivPurpose::DeleteSlot { slot, firmware: *firmware }),
            r.0.mgmt_key == *mgmt_key,
            r.0.stage == PivStage::AwaitSelect,
            r.1@ == crate::model::card::select_piv_apdu(),
    {
        (
            PivSession {
                purpose: PivPurpose::DeleteSlot { slot, firmware: *firmware },
                mgmt_key: *mgmt_key,
                stage: PivStage::AwaitSelect,
            },
            select_piv(),
        )
    }

    /// A session that replaces the management key; transmit the returned SELECT
    /// first.
    pub fn change_key(current_key: &[u8; 24], new_key: &[u8; 24]) -> (r: (Self, Vec<u8>))
        ensures
            r.0.purpose == (PivPurpose::ChangeKey { new_key: *new_key }),
            r.0.mgmt_key == *current_key,
            r.0.stage == PivStage::AwaitSelect,
            r.1@ == crate::model::card::select_piv_apdu(),
    {
        (
            PivSession {
                purpose: PivPurpose::ChangeKey { new_key: *new_key },
                mgmt_key: *current_key,
                stage: PivStage::AwaitSelect,
            },
            select_piv(),
        )
    }

    /// Takes the card's response to the last APDU and says what to do next (see
    /// [`piv_next`]). A transport failure while deleting the key is handed in as
    /// an empty response.
    pub fn step(&mut self, resp: &[u8]) -> (r: PivStep)
        ensures
            final(self).purpose == old(self).purpose,
            final(self).mgmt_key == old(self).mgmt_key,
            (final(self).stage, r@) == piv_next(old(self).purpose, old(self).mgmt_key, old(self).stage, resp@),
    {
        let sw = apdu_sw(resp);
        match self.stage {
            PivStage::AwaitSelect => {
                if sw != 0x9000 {
                    self.stage = PivStage::Over;
                    let e = match self.purpose {
                        PivPurpose::DeleteSlot { .. } => PivError::PivNotAvailable,
                        PivPurpose::ChangeKey { .. } => PivError::PivNotFound,
                    };
                    PivStep::Failed(e)
                } else {
                    self.stage = PivStage::AwaitChallenge;
                    let a = vec![0x00u8, 0x87, 0x03, 0x9B, 0x04, 0x7C, 0x02, 0x81, 0x00];
                    assert(a@ =~= challenge_request_apdu());
                    PivStep::Transmit(a)
                }
            },
            PivStage::AwaitChallenge => {
                match answer_challenge(resp, &self.mgmt_key) {
                    Ok(a) => {
                        self.stage = PivStage::AwaitAuth;
                        PivStep::Transmit(a)
                    },
                    Err(e) => {
                        self.stage = PivStage::Over;
                        PivStep::Failed(e)
                    },
                }
            },
            PivStage::AwaitAuth => {
                if sw != 0x9000 {
                    self.stage = PivStage::Over;
                    PivStep::Failed(PivError::ManagementKeyRejected)
                } else {
                    match self.purpose {
                        PivPurpose::DeleteSlot { slot, .. } => {
                            self.stage = PivStage::AwaitCertDelete;
                            let mut a = vec![0x00u8, 0xDB, 0x3F, 0xFF, 0x07, 0x5C, 0x03];
                            let o = slot.object_id_bytes();
                            push_bytes(&mut a, &o);
                            a.push(0x53);
                            a.push(0x00);
                            assert(a@ =~= delete_certificate_apdu(slot));
                            PivStep::Transmit(a)
                        },
                        PivPurpose::ChangeKey { new_key } => {
                            self.stage = PivStage::AwaitSetKey;
                            let mut a = vec![0x00u8, 0xFF, 0xFF, 0xFE, 0x1C, 0x9B, 0x03, 0x18];
                            push_bytes(&mut a, &new_key);
                            assert(a@ =~= set_management_key_apdu(new_key@));
                            PivStep::Transmit(a)
                        },
                    }
                }
            },
            PivStage::AwaitCertDelete => {
                match self.purpose {
                    PivPurpose::DeleteSlot { slot, firmware } => {
                        if sw != 0x9000 {
                            self.stage = PivStage::Over;
                            PivStep::Failed(PivError::CertificateDeleteFailed(sw))
                        } else if key_delete_supported(&firmware) {
                            self.stage = PivStage::AwaitKeyDelete;
                            let a = vec![0x00u8, 0xF6, 0xFF, slot.slot_id()];
                            assert(a@ =~= delete_key_apdu(slot));
                            PivStep::Transmit(a)
                        } else {
                            self.stage = PivStage::Over;
                            PivStep::Done(delete_slot_message(slot, false, &firmware))
                        }
                    },
                    PivPurpose::ChangeKey { .. } => {
                        self.stage = PivStage::Over;
                        PivStep::Failed(PivError::SessionOver)
                    },
                }
            },
            PivStage::AwaitKeyDelete => {
                self.stage = PivStage::Over;
                match self.purpose {
                    PivPurpose::DeleteSlot { slot, firmware } => PivStep::Done(
                        delete_slot_message(slot, sw == 0x9000, &firmware),
                    ),
                    PivPurpose::ChangeKey { .. } => PivStep::Failed(PivError::SessionOver),
                }
            },
            PivStage::AwaitSetKey => {
                self.stage = PivStage::Over;
                if sw == 0x9000 {
                    PivStep::Completed
                } else if sw == 0x6982 {
                    PivStep::Failed(PivError::WrongCurrentKey)
                } else if sw == 0x6A80 {
                    PivStep::Failed(PivError::InvalidNewKey)
                } else {
                    PivStep::Failed(PivError::SetManagementKeyFailed(sw))
                }
            },
            PivStage::Over => PivStep::Failed(PivError::SessionOver),
        }
    }
}

/// The order of a PIV session's stages.
pub open spec fn piv_rank(st: PivStage) -> int {
    match st {
        PivStage::AwaitSelect => 0,
        PivStage::AwaitChallenge => 1,
        PivStage::AwaitAuth => 2,
        PivStage::AwaitCertDelete => 3,
        PivStage::AwaitSetKey => 3,
        PivStage::AwaitKeyDelete => 4,
        PivStage::Over => 5,
    }
}

/// A PIV session only moves forward, and it sends a writing command (certificate
/// deletion, MOVE KEY, SET MANAGEMENT KEY) only after the card accepted the
/// management key: from the stage after authentication, on status 0x9000.
pub proof fn lemma_piv_writes_after_auth(purpose: PivPurpose, key: [u8; 24], stage: PivStage, resp: Seq<u8>)
    ensures
        piv_rank(piv_next(purpose, key, stage, resp).0) > piv_rank(stage) || piv_next(purpose, key, stage, resp).0
            == PivStage::Over,
        piv_next(purpose, key, stage, resp).1 is Transmit && piv_rank(stage) >= 2 ==> status_word(resp)
            == 0x9000 && (stage == PivStage::AwaitAuth || stage == PivStage::AwaitCertDelete),
{
}

/// The firmware gate of key deletion: once the certificate is deleted, the
/// session sends exactly MOVE KEY `00 F6 FF <slot>` on firmware 5.7.0 or newer
/// (5.6.x and older are gated, 5.7.0 and 6.0.0 are not); on older firmware it
/// sends nothing more and ends saying the key was kept and why.
pub proof fn lemma_key_delete_gate(slot: PivSlot, firmware: Version, key: [u8; 24], resp: Seq<u8>)
    requires
        status_word(resp) == 0x9000,
    ensures
        key_delete_allowed(firmware) <==> !(firmware.major < 5 || (firmware.major == 5 && firmware.minor < 7)),
        key_delete_allowed(firmware) ==> piv_next(PivPurpose::DeleteSlot { slot, firmware }, key, PivStage::AwaitCertDelete, resp)
            == (PivStage::AwaitKeyDelete, PivStepView::Transmit(seq![0x00u8, 0xF6, 0xFF, slot.id()])),
        !key_delete_allowed(firmware) ==> piv_next(PivPurpose::DeleteSlot { slot, firmware }, key, PivStage::AwaitCertDelete, resp)
            == (PivStage::Over, PivStepView::Done(deletion_message(slot, false, firmware))),
{
}

/// MOVE KEY (key deletion) is sent only to firmware 5.7.0 or newer.
pub proof fn lemma_move_key_needs_firmware(slot: PivSlot, firmware: Version, key: [u8; 24], stage: PivStage, resp: Seq<u8>)
    ensures
        piv_next(PivPurpose::DeleteSlot { slot, firmware }, key, stage, resp).1 == PivStepView::Transmit(
            delete_key_apdu(slot),
        ) ==> key_delete_allowed(firmware),
{
    let r = piv_next(PivPurpose::DeleteSlot { slot, firmware }, key, stage, resp).1;
    if r == PivStepView::Transmit(delete_key_apdu(slot)) {
        assert(delete_key_apdu(slot)[1] == 0xF6);
        if stage == PivStage::AwaitSelect {
            assert(challenge_request_apdu()[1] == 0x87);
        } else if stage == PivStage::AwaitChallenge {
            match challenge_answer(resp, key@) {
                Ok(a) => assert(a[1] == 0x87),
                Err(_) => {},
            }
        } else if stage == PivStage::AwaitAuth {
            assert(delete_certificate_apdu(slot)[1] == 0xDB);
        }
    }
}

} // verus!
