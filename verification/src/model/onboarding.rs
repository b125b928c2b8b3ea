//! First-run detection from the device model alone.
use vstd::prelude::*;
use crate::model::YubiKeyState;

verus! {

/// A device looks factory-fresh when all three are known and empty: no FIDO2
/// PIN, no OATH credential, no occupied PIV slot. An unknown part (a `None`)
/// makes the answer `false`.
pub open spec fn factory_default(yk: YubiKeyState) -> bool {
    &&& yk.fido2 matches Some(f) && !f.pin_is_set
    &&& yk.oath matches Some(o) && o.credentials@.len() == 0
    &&& yk.piv matches Some(p) && p.slots@.len() == 0
}

/// The device appears to be in its factory state (see [`factory_default`]).
pub fn is_factory_default(yk: &YubiKeyState) -> (b: bool)
    ensures
        b == factory_default(*yk),
{
    let no_fido2_pin = match &yk.fido2 {
        Some(f) => !f.pin_is_set,
        None => false,
    };
    let zero_oath = match &yk.oath {
        Some(o) => o.credentials.len() == 0,
        None => false,
    };
    let piv_empty = match &yk.piv {
        Some(p) => p.slots.len() == 0,
        None => false,
    };
    no_fido2_pin && zero_oath && piv_empty
}

/// A device with an unknown part (FIDO2, OATH or PIV state missing) never looks
/// factory-fresh.
pub proof fn lemma_unknown_is_not_fresh(yk: YubiKeyState)
    requires
        yk.fido2.is_none() || yk.oath.is_none() || yk.piv.is_none(),
    ensures
        !factory_default(yk),
{
}

} // verus!
