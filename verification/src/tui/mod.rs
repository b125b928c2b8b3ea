//! The logic of the interactive screens: wizard steps, key handling and input
//! parsing, apart from any drawing.
pub mod config;
pub mod dashboard;
pub mod diagnostics;
pub mod fido2;
pub mod glossary;
pub mod help;
pub mod keys;
pub mod oath;
pub mod oath_password;
pub mod onboarding;
pub mod otp;
pub mod pin;
pub mod piv;
pub mod ssh;
pub mod theme;
pub mod widgets;
pub mod wizard;
