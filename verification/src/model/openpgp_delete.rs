//! Deleting one OpenPGP key: VERIFY the Admin PIN, then rewrite the slot's
//! algorithm attributes (RSA-4096, then RSA-2048), which destroys the key.
use vstd::prelude::*;
use vstd::string::*;
use crate::model::card::{apdu_sw, status_word, verify_admin_pin_apdu, verify_admin_pin_apdu_spec};
use crate::text::{decimal, push_decimal};

verus! {

/// An OpenPGP key slot.
#[derive(Debug, Clone, Copy, PartialEq, Eq, Structural)]
pub enum OpenPgpKeySlot {
    /// Signature key (algorithm attributes DO 0xC1).
    Sig,
    /// Encryption key (DO 0xC2).
    Enc,
    /// Authentication key (DO 0xC3).
    Aut,
}

impl OpenPgpKeySlot {
    /// The algorithm attributes tag of the slot.
    pub open spec fn attr_tag(self) -> u8 {
        match self {
            OpenPgpKeySlot::Sig => 0xC1,
            OpenPgpKeySlot::Enc => 0xC2,
            OpenPgpKeySlot::Aut => 0xC3,
        }
    }

    /// The display name of the slot.
    pub open spec fn name(self) -> Seq<char> {
        match self {
            OpenPgpKeySlot::Sig => "Signature"@,
            OpenPgpKeySlot::Enc => "Encryption"@,
            OpenPgpKeySlot::Aut => "Authentication"@,
        }
    }

    /// The algorithm attributes data object tag (P2 of PUT DATA).
    pub fn algorithm_attr_tag(self) -> (t: u8)
        ensures
            t == self.attr_tag(),
    {
        match self {
            OpenPgpKeySlot::Sig => 0xC1,
            OpenPgpKeySlot::Enc => 0xC2,
            OpenPgpKeySlot::Aut => 0xC3,
        }
    }

    /// Human-readable name of the slot.
    pub fn display_name(self) -> (s: &'static str)
        ensures
            s@ == self.name(),
    {
        match self {
            OpenPgpKeySlot::Sig => "Signature",
            OpenPgpKeySlot::Enc => "Encryption",
            OpenPgpKeySlot::Aut => "Authentication",
        }
    }
}

/// RSA-4096 algorithm attributes (type 01, modulus 4096, exponent 17 bits, format 00).
pub const RSA4096_ATTRS: [u8; 6] = [0x01, 0x10, 0x00, 0x00, 0x11, 0x00];

/// RSA-2048 algorithm attributes (type 01, modulus 2048, exponent 17 bits, format 00).
pub const RSA2048_ATTRS: [u8; 6] = [0x01, 0x08, 0x00, 0x00, 0x11, 0x00];

/// PUT DATA of six algorithm attribute bytes to the slot's tag.
pub open spec fn put_attrs_apdu(tag: u8, attrs: Seq<u8>) -> Seq<u8> {
    seq![0x00u8, 0xDA, 0x00, tag, 0x06] + attrs
}

/// Why deleting an OpenPGP key failed.
#[derive(Debug, Clone, Copy, PartialEq, Eq, Structural)]
pub enum OpenPgpDeleteError {
    /// The Admin PIN was wrong; this many retries remain.
    WrongAdminPin(u16),
    /// The Admin PIN is blocked.
    AdminPinBlocked,
    /// VERIFY was answered with this status.
    VerifyFailed(u16),
    /// PUT DATA to this tag was answered with this status.
    PutDataFailed { tag: u8, sw: u16 },
    /// The deletion had already ended.
    SessionOver,
}

/// The message of an error where the status word alone does not say it.
pub open spec fn delete_error_text(e: OpenPgpDeleteError) -> Option<Seq<char>> {
    match e {
        OpenPgpDeleteError::WrongAdminPin(r) => Some(
            "Wrong Admin PIN ("@ + decimal(r as nat) + " "@ + (if r == 1 {
                "retry"@
            } else {
                "retries"@
            }) + " remaining)"@,
        ),
        OpenPgpDeleteError::AdminPinBlocked => Some("Admin PIN is blocked — use factory reset to recover"@),
        _ => None,
    }
}

impl OpenPgpDeleteError {
    /// The message of a wrong or blocked Admin PIN (see [`delete_error_text`]).
    pub fn message(&self) -> (m: Option<String>)
        ensures
            match m {
                Some(s) => delete_error_text(*self) == Some(s@),
                None => delete_error_text(*self).is_none(),
            },
    {
        match self {
            OpenPgpDeleteError::WrongAdminPin(r) => {
                let mut s = String::from_str("Wrong Admin PIN (");
                push_decimal(&mut s, *r as u64);
                if *r == 1 {
                    s.append(" retry remaining)");
                } else {
                    s.append(" retries remaining)");
                }
                proof {
                    reveal_strlit(" retry remaining)");
                    reveal_strlit(" retries remaining)");
                    reveal_strlit(" ");
                    reveal_strlit("retry");
                    reveal_strlit("retries");
                    reveal_strlit(" remaining)");
                }
                assert(s@ =~= delete_error_text(*self).unwrap());
                Some(s)
            },
            OpenPgpDeleteError::AdminPinBlocked => Some(
                String::from_str("Admin PIN is blocked — use factory reset to recover"),
            ),
            _ => None,
        }
    }
}

/// The outcome of VERIFY by its status word: `63 Cx`-style warnings give the
/// retries in the low four bits.
pub open spec fn verify_outcome(sw: u16) -> Result<(), OpenPgpDeleteError> {
    if sw == 0x9000 {
        Ok(())
    } else if sw / 256 == 0x63 {
        Err(OpenPgpDeleteError::WrongAdminPin(sw % 16))
    } else if sw == 0x6983 {
        Err(OpenPgpDeleteError::AdminPinBlocked)
    } else {
        Err(OpenPgpDeleteError::VerifyFailed(sw))
    }
}

/// The response an OpenPGP key deletion waits for.
#[derive(Debug, Clone, Copy, PartialEq, Eq, Structural)]
pub enum KeyDeleteStage {
    AwaitVerify,
    AwaitRsa4096,
    AwaitRsa2048,
    Over,
}

/// An OpenPGP key deletion on a selected OpenPGP applet. The caller transmits
/// each APDU and hands back the response.
pub struct OpenPgpKeyDeletion {
    pub slot: OpenPgpKeySlot,
    pub stage: KeyDeleteStage,
}

/// What the caller does next.
#[derive(Debug)]
pub enum KeyDeleteStep {
    Transmit(Vec<u8>),
    Deleted,
    Failed(OpenPgpDeleteError),
}

/// The mathematical value of a [`KeyDeleteStep`].
pub enum KeyDeleteStepView {
    Transmit(Seq<u8>),
    Deleted,
    Failed(OpenPgpDeleteError),
}

impl View for KeyDeleteStep {
    type V = KeyDeleteStepView;

    open spec fn view(&self) -> KeyDeleteStepView {
        match self {
            KeyDeleteStep::Transmit(a) => KeyDeleteStepView::Transmit(a@),
            KeyDeleteStep::Deleted => KeyDeleteStepView::Deleted,
            KeyDeleteStep::Failed(e) => KeyDeleteStepView::Failed(*e),
        }
    }
}

/// The next stage and step of a deletion that receives `resp` in `stage`.
pub open spec fn key_delete_next(slot: OpenPgpKeySlot, stage: KeyDeleteStage, resp: Seq<u8>) -> (
    KeyDeleteStage,
    KeyDeleteStepView,
) {
    let sw = status_word(resp);
    match stage {
        KeyDeleteStage::AwaitVerify => match verify_outcome(sw) {
            Ok(()) => (
                KeyDeleteStage::AwaitRsa4096,
                KeyDeleteStepView::Transmit(put_attrs_apdu(slot.attr_tag(), RSA4096_ATTRS@)),
            ),
            Err(e) => (KeyDeleteStage::Over, KeyDeleteStepView::Failed(e)),
        },
        KeyDeleteStage::AwaitRsa4096 => if sw != 0x9000 {
            (
                KeyDeleteStage::Over,
                KeyDeleteStepView::Failed(OpenPgpDeleteError::PutDataFailed { tag: slot.attr_tag(), sw }),
            )
        } else {
            (
                KeyDeleteStage::AwaitRsa2048,
                KeyDeleteStepView::Transmit(put_attrs_apdu(slot.attr_tag(), RSA2048_ATTRS@)),
            )
        },
        KeyDeleteStage::AwaitRsa2048 => if sw != 0x9000 {
            (
                KeyDeleteStage::Over,
                KeyDeleteStepView::Failed(OpenPgpDeleteError::PutDataFailed { tag: slot.attr_tag(), sw }),
            )
        } else {
            (KeyDeleteStage::Over, KeyDeleteStepView::Deleted)
        },
        KeyDeleteStage::Over => (
            KeyDeleteStage::Over,
            KeyDeleteStepView::Failed(OpenPgpDeleteError::SessionOver),
        ),
    }
}

fn put_attrs(tag: u8, attrs: &[u8; 6]) -> (r: Vec<u8>)
    ensures
        r@ == put_attrs_apdu(tag, attrs@),
{
    let r = vec![0x00u8, 0xDA, 0x00, tag, 0x06, attrs[0], attrs[1], attrs[2], attrs[3], attrs[4], attrs[5]];
    assert(r@ =~= put_attrs_apdu(tag, attrs@));
    r
}

/// Starts deleting the key in `slot` on a selected OpenPGP applet: transmit the
/// returned VERIFY of the Admin PIN first.
pub fn delete_openpgp_key(slot: OpenPgpKeySlot, admin_pin: &str) -> (r: (OpenPgpKeyDeletion, Vec<u8>))
    ensures
        r.0.slot == slot,
        r.0.stage == KeyDeleteStage::AwaitVerify,
        r.1@ == verify_admin_pin_apdu_spec(admin_pin.spec_bytes()),
{
    let bytes = admin_pin.as_bytes();
    (OpenPgpKeyDeletion { slot, stage: KeyDeleteStage::AwaitVerify }, verify_admin_pin_apdu(bytes))
}

impl OpenPgpKeyDeletion {
    /// Takes the card's response to the last APDU and says what to do next (see
    /// [`key_delete_next`]).
    pub fn step(&mut self, resp: &[u8]) -> (r: KeyDeleteStep)
        ensures
            final(self).slot == old(self).slot,
            (final(self).stage, r@) == key_delete_next(old(self).slot, old(self).stage, resp@),
    {
        let sw = apdu_sw(resp);
        let tag = self.slot.algorithm_attr_tag();
        match self.stage {
            KeyDeleteStage::AwaitVerify => {
                if sw == 0x9000 {
                    self.stage = KeyDeleteStage::AwaitRsa4096;
                    KeyDeleteStep::Transmit(put_attrs(tag, &RSA4096_ATTRS))
                } else if sw / 256 == 0x63 {
                    self.stage = KeyDeleteStage::Over;
                    KeyDeleteStep::Failed(OpenPgpDeleteError::WrongAdminPin(sw % 16))
                } else if sw == 0x6983 {
                    self.stage = KeyDeleteStage::Over;
                    KeyDeleteStep::Failed(OpenPgpDeleteError::AdminPinBlocked)
                } else {
                    self.stage = KeyDeleteStage::Over;
                    KeyDeleteStep::Failed(OpenPgpDeleteError::VerifyFailed(sw))
                }
            },
            KeyDeleteStage::AwaitRsa4096 => {
                if sw != 0x9000 {
                    self.stage = KeyDeleteStage::Over;
                    KeyDeleteStep::Failed(OpenPgpDeleteError::PutDataFailed { tag, sw })
                } else {
                    self.stage = KeyDeleteStage::AwaitRsa2048;
                    KeyDeleteStep::Transmit(put_attrs(tag, &RSA2048_ATTRS))
                }
            },
            KeyDeleteStage::AwaitRsa2048 => {
                self.stage = KeyDeleteStage::Over;
                if sw != 0x9000 {
                    KeyDeleteStep::Failed(OpenPgpDeleteError::PutDataFailed { tag, sw })
                } else {
                    KeyDeleteStep::Deleted
                }
            },
            KeyDeleteStage::Over => KeyDeleteStep::Failed(OpenPgpDeleteError::SessionOver),
        }
    }
}

/// The order of a key deletion's stages.
pub open spec fn delete_rank(st: KeyDeleteStage) -> int {
    match st {
        KeyDeleteStage::AwaitVerify => 0,
        KeyDeleteStage::AwaitRsa4096 => 1,
        KeyDeleteStage::AwaitRsa2048 => 2,
        KeyDeleteStage::Over => 3,
    }
}

/// A key deletion only moves forward, and it rewrites the algorithm attributes
/// only once VERIFY of the Admin PIN succeeded: every command it sends answers
/// a 0x9000 status.
pub proof fn lemma_attrs_after_verify(slot: OpenPgpKeySlot, stage: KeyDeleteStage, resp: Seq<u8>)
    ensures
        delete_rank(key_delete_next(slot, stage, resp).0) > delete_rank(stage) || key_delete_next(
            slot,
            stage,
            resp,
        ).0 == KeyDeleteStage::Over,
        key_delete_next(slot, stage, resp).1 is Transmit ==> status_word(resp) == 0x9000,
        key_delete_next(slot, stage, resp).1 is Deleted ==> stage == KeyDeleteStage::AwaitRsa2048,
{
}

} // verus!
