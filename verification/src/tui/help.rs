//! The help screen: every key binding, grouped by screen.
use vstd::prelude::*;

verus! {

/// The key bindings of every screen, as Markdown.
pub const HELP_MARKDOWN: &'static str = "# yubitui -- YubiKey Management TUI

## Global Keybindings

- `1-9` Switch screen (Keys / Diagnostics / PIN / SSH / PIV / Help / OATH / FIDO2 / OTP)
- `r` Refresh YubiKey status and diagnostics
- `?` Toggle help / glossary
- `q` / `Esc` Quit (from Dashboard) or go back
- `m` / `Enter` Open navigation menu (Dashboard)

## Key Management (Screen 1)

- `v` View full card status
- `i` Import existing key to card
- `g` Generate new key on card
- `e` Export SSH public key
- `t` Set touch policy for a slot
- `Up` / `Down` Navigate slots
- `Enter` Execute selected operation

## PIN Management (Screen 3)

- `c` Change user PIN
- `a` Change admin PIN
- `r` Set reset code
- `u` Unblock user PIN with reset code

## SSH Setup (Screen 4)

- `1-5` Select wizard step
- `r` Refresh SSH status
- `Enter` Execute selected step

## OATH / Authenticator (Screen 7)

- `a` Add new TOTP / HOTP account
- `Del` Delete selected account
- `Enter` Show current OTP code

## FIDO2 / Security Key (Screen 8)

- `s` Set FIDO2 PIN
- `r` Reset FIDO2 applet (destructive)

## OTP Slots (Screen 9)

- `1` / `2` Select OTP slot
- `p` Program selected slot
- `d` Delete / reset selected slot
";

/// The actions of the screen (Escape, q and ? all go back).
#[derive(Debug, Clone, Copy, PartialEq, Eq, Structural)]
pub enum HelpScreenAction {
    Back,
}

/// The help screen.
#[derive(Debug, Clone, Copy, PartialEq, Eq, Structural)]
pub struct HelpScreen;

impl HelpScreen {
    /// The screen.
    pub fn new() -> (s: Self)
        ensures
            s == HelpScreen,
    {
        HelpScreen
    }

    /// The screen's header.
    pub fn title(&self) -> (s: &'static str)
        ensures
            s@ == "yubitui -- YubiKey Management TUI"@,
    {
        "yubitui -- YubiKey Management TUI"
    }

    /// The screen's text.
    pub fn markdown(&self) -> (s: &'static str)
        ensures
            s@ == HELP_MARKDOWN@,
    {
        HELP_MARKDOWN
    }

    /// Back closes the screen: the result says so.
    pub fn on_action(&self, action: HelpScreenAction) -> (close: bool)
        ensures
            close == (action == HelpScreenAction::Back),
    {
        match action {
            HelpScreenAction::Back => true,
        }
    }
}

} // verus!
