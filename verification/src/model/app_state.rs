//! Screen navigation and the application state a front end needs.
use vstd::prelude::*;
use crate::model::YubiKeyState;

verus! {

/// The screens of the application.
#[derive(Debug, Clone, Copy, PartialEq, Eq, Structural)]
pub enum Screen {
    Dashboard,
    Diagnostics,
    Help,
    Keys,
    PinManagement,
    SshWizard,
    Piv,
}

/// Application state: navigation, the detected devices and the mode.
#[derive(Debug)]
pub struct AppState {
    pub current_screen: Screen,
    pub previous_screen: Screen,
    pub should_quit: bool,
    pub yubikey_states: Vec<YubiKeyState>,
    pub selected_yubikey_idx: usize,
    pub mock_mode: bool,
}

impl Default for AppState {
    /// On the dashboard, no device, not quitting, not mocked.
    fn default() -> (s: Self)
        ensures
            s.current_screen == Screen::Dashboard,
            s.previous_screen == Screen::Dashboard,
            !s.should_quit,
            s.yubikey_states@.len() == 0,
            s.selected_yubikey_idx == 0,
            !s.mock_mode,
    {
        AppState {
            current_screen: Screen::Dashboard,
            previous_screen: Screen::Dashboard,
            should_quit: false,
            yubikey_states: Vec::new(),
            selected_yubikey_idx: 0,
            mock_mode: false,
        }
    }
}

impl AppState {
    /// The number of detected devices.
    pub fn yubikey_count(&self) -> (n: usize)
        ensures
            n == self.yubikey_states@.len(),
    {
        self.yubikey_states.len()
    }

    /// The selected device, where the selection names a detected one.
    pub fn yubikey_state(&self) -> (y: Option<&YubiKeyState>)
        ensures
            match y {
                Some(k) => self.selected_yubikey_idx < self.yubikey_states@.len()
                    && *k == self.yubikey_states@[self.selected_yubikey_idx as int],
                None => self.selected_yubikey_idx >= self.yubikey_states@.len(),
            },
    {
        if self.selected_yubikey_idx < self.yubikey_states.len() {
            Some(&self.yubikey_states[self.selected_yubikey_idx])
        } else {
            None
        }
    }
}

} // verus!
