//! Reusable screen parts.
pub mod pin_input;
pub mod popup;
pub mod nav_button;
