//! OpenPGP PIN retry counters.
use vstd::prelude::*;

verus! {

/// Retry counters of the User PIN, the Admin PIN and the Reset Code.
#[derive(Debug, Clone, Copy, PartialEq, Eq, Structural)]
pub struct PinStatus {
    pub user_pin_retries: u8,
    pub admin_pin_retries: u8,
    pub reset_code_retries: u8,
    pub user_pin_blocked: bool,
    pub admin_pin_blocked: bool,
}

} // verus!
