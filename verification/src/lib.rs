//! YubiKey management logic: device models, OATH/OTP/PIV/OpenPGP protocol
//! encoding and decoding, parsers for tool output, and the state of the
//! interactive screens.
pub mod clock;
pub mod text;
pub mod model;
pub mod tui;
pub mod diagnostics;
pub mod utils;
