//! FIDO2 screens: setting, changing and entering the PIN, deleting a passkey,
//! and the guided reset with its ten-second replug window.
use vstd::prelude::*;
use vstd::string::*;
use vstd::utf8::*;
use crate::model::fido2::{fido2_views, Fido2CredentialView, Fido2State};
use crate::model::pin_operations::string_views;
use crate::text::{decimal, push_char, push_decimal};
use crate::tui::keys::push_line;
use crate::tui::pin::{join_strings, joined};
use crate::tui::widgets::pin_input::{edit, edited, PinKey};
use crate::tui::widgets::popup::ConfirmScreen;

verus! {

/// The length of a PIN in UTF-8 bytes (what `String::len` counts).
pub open spec fn byte_len(s: Seq<char>) -> nat {
    encode_utf8(s).len()
}

/// What a FIDO2 PIN screen asks for.
#[derive(Debug)]
pub enum Fido2PinNav {
    /// Stay on the screen.
    Stay,
    /// Close the screen.
    Cancel,
    /// Set this first PIN on the authenticator.
    SetPin(String),
    /// Change the PIN from `current` to `new`.
    ChangePin { current: String, new: String },
    /// List the passkeys with this PIN.
    Authenticate(String),
    /// Close the screen and show a message.
    Done { title: String, body: String },
}

/// The steps of setting a first PIN.
#[derive(Debug, Clone, Copy, PartialEq, Eq, Structural)]
pub enum PinSetStep {
    EnterNew,
    ConfirmNew,
}

/// The screen that sets a first FIDO2 PIN: the PIN, then its confirmation.
#[derive(Debug)]
pub struct PinSetScreen {
    pub new_pin: String,
    pub confirm_pin: String,
    pub step: PinSetStep,
    pub error_message: Option<String>,
}

impl PinSetScreen {
    /// An empty screen on its first step.
    pub fn new() -> (s: Self)
        ensures
            s.new_pin@.len() == 0 && s.confirm_pin@.len() == 0,
            s.step == PinSetStep::EnterNew,
            s.error_message is None,
    {
        PinSetScreen { new_pin: String::new(), confirm_pin: String::new(), step: PinSetStep::EnterNew, error_message: None }
    }

    /// Enter: a PIN of fewer than 4 bytes is refused; else the confirmation is asked
    /// for; a confirmation that differs is refused and emptied; else the
    /// application is asked to set the PIN.
    pub fn next_step(&mut self) -> (nav: Fido2PinNav)
        ensures
            final(self).new_pin@ == old(self).new_pin@,
            match old(self).step {
                PinSetStep::EnterNew => nav is Stay && final(self).confirm_pin@ == old(self).confirm_pin@
                    && if byte_len(old(self).new_pin@) < 4 {
                    final(self).step == old(self).step
                        && (final(self).error_message matches Some(e) && e@ == "PIN must be at least 4 characters"@)
                } else {
                    final(self).step == PinSetStep::ConfirmNew && final(self).error_message is None
                },
                PinSetStep::ConfirmNew => final(self).step == old(self).step && if old(self).new_pin@
                    != old(self).confirm_pin@ {
                    &&& nav is Stay
                    &&& final(self).error_message matches Some(e) && e@ == "PINs do not match. Try again."@
                    &&& final(self).confirm_pin@.len() == 0
                } else {
                    &&& nav matches Fido2PinNav::SetPin(p) && p@ == old(self).new_pin@
                    &&& final(self).confirm_pin@ == old(self).confirm_pin@
                    &&& final(self).error_message == old(self).error_message
                },
            },
    {
        match self.step {
            PinSetStep::EnterNew => {
                if self.new_pin.as_str().as_bytes().len() < 4 {
                    self.error_message = Some(String::from_str("PIN must be at least 4 characters"));
                } else {
                    self.error_message = None;
                    self.step = PinSetStep::ConfirmNew;
                }
                Fido2PinNav::Stay
            },
            PinSetStep::ConfirmNew => {
                if self.new_pin != self.confirm_pin {
                    self.error_message = Some(String::from_str("PINs do not match. Try again."));
                    self.confirm_pin = String::new();
                    Fido2PinNav::Stay
                } else {
                    Fido2PinNav::SetPin(self.new_pin.clone())
                }
            },
        }
    }

    /// Edits the field of the current step; enter goes on (see [`Self::next_step`]).
    pub fn on_key(&mut self, key: PinKey) -> (nav: Fido2PinNav)
        ensures
            match key {
                PinKey::Esc => nav is Cancel && final(self).step == old(self).step,
                PinKey::Char(_) | PinKey::Backspace => {
                    &&& nav is Stay
                    &&& final(self).step == old(self).step
                    &&& final(self).new_pin@ == if old(self).step == PinSetStep::EnterNew {
                        edited(old(self).new_pin@, key)
                    } else {
                        old(self).new_pin@
                    }
                    &&& final(self).confirm_pin@ == if old(self).step == PinSetStep::ConfirmNew {
                        edited(old(self).confirm_pin@, key)
                    } else {
                        old(self).confirm_pin@
                    }
                },
                PinKey::Enter => final(self).new_pin@ == old(self).new_pin@,
                _ => nav is Stay && final(self).step == old(self).step,
            },
    {
        match key {
            PinKey::Esc => Fido2PinNav::Cancel,
            PinKey::Enter => self.next_step(),
            PinKey::Char(_) | PinKey::Backspace => {
                match self.step {
                    PinSetStep::EnterNew => edit(&mut self.new_pin, key),
                    PinSetStep::ConfirmNew => edit(&mut self.confirm_pin, key),
                }
                Fido2PinNav::Stay
            },
            _ => Fido2PinNav::Stay,
        }
    }

    /// The authenticator's answer: done, or its error shown.
    pub fn on_result(&mut self, result: Result<(), String>) -> (nav: Fido2PinNav)
        ensures
            match result {
                Ok(_) => nav matches Fido2PinNav::Done { title, body } && title@ == "Success"@
                    && body@ == "PIN set successfully."@,
                Err(e) => nav is Stay && (final(self).error_message matches Some(m) && m@ == e@),
            },
    {
        match result {
            Ok(_) => Fido2PinNav::Done {
                title: String::from_str("Success"),
                body: String::from_str("PIN set successfully."),
            },
            Err(e) => {
                self.error_message = Some(e);
                Fido2PinNav::Stay
            },
        }
    }
}

/// The steps of changing the PIN.
#[derive(Debug, Clone, Copy, PartialEq, Eq, Structural)]
pub enum PinChangeStep {
    EnterCurrent,
    EnterNew,
    ConfirmNew,
}

/// The screen that changes the FIDO2 PIN: the current one, the new one, its
/// confirmation.
#[derive(Debug)]
pub struct PinChangeScreen {
    pub current_pin: String,
    pub new_pin: String,
    pub confirm_pin: String,
    pub step: PinChangeStep,
    pub error_message: Option<String>,
}

impl PinChangeScreen {
    /// An empty screen on its first step.
    pub fn new() -> (s: Self)
        ensures
            s.current_pin@.len() == 0 && s.new_pin@.len() == 0 && s.confirm_pin@.len() == 0,
            s.step == PinChangeStep::EnterCurrent,
            s.error_message is None,
    {
        PinChangeScreen {
            current_pin: String::new(),
            new_pin: String::new(),
            confirm_pin: String::new(),
            step: PinChangeStep::EnterCurrent,
            error_message: None,
        }
    }

    /// Enter: the current PIN is taken as it is; a new PIN of fewer than 4 bytes is
    /// refused; a confirmation that differs is refused and emptied; else the
    /// application is asked to change the PIN.
    pub fn next_step(&mut self) -> (nav: Fido2PinNav)
        ensures
            final(self).current_pin@ == old(self).current_pin@,
            final(self).new_pin@ == old(self).new_pin@,
            match old(self).step {
                PinChangeStep::EnterCurrent => nav is Stay && final(self).step == PinChangeStep::EnterNew
                    && final(self).error_message is None && final(self).confirm_pin@ == old(self).confirm_pin@,
                PinChangeStep::EnterNew => nav is Stay && final(self).confirm_pin@ == old(self).confirm_pin@
                    && if byte_len(old(self).new_pin@) < 4 {
                    final(self).step == old(self).step
                        && (final(self).error_message matches Some(e) && e@ == "PIN must be at least 4 characters"@)
                } else {
                    final(self).step == PinChangeStep::ConfirmNew && final(self).error_message is None
                },
                PinChangeStep::ConfirmNew => final(self).step == old(self).step && if old(self).new_pin@
                    != old(self).confirm_pin@ {
                    &&& nav is Stay
                    &&& final(self).error_message matches Some(e) && e@ == "PINs do not match. Try again."@
                    &&& final(self).confirm_pin@.len() == 0
                } else {
                    &&& nav matches Fido2PinNav::ChangePin { current, new }
                    &&& current@ == old(self).current_pin@ && new@ == old(self).new_pin@
                    &&& final(self).confirm_pin@ == old(self).confirm_pin@
                    &&& final(self).error_message == old(self).error_message
                },
            },
    {
        match self.step {
            PinChangeStep::EnterCurrent => {
                self.error_message = None;
                self.step = PinChangeStep::EnterNew;
                Fido2PinNav::Stay
            },
            PinChangeStep::EnterNew => {
                if self.new_pin.as_str().as_bytes().len() < 4 {
                    self.error_message = Some(String::from_str("PIN must be at least 4 characters"));
                } else {
                    self.error_message = None;
                    self.step = PinChangeStep::ConfirmNew;
                }
                Fido2PinNav::Stay
            },
            PinChangeStep::ConfirmNew => {
                if self.new_pin != self.confirm_pin {
                    self.error_message = Some(String::from_str("PINs do not match. Try again."));
                    self.confirm_pin = String::new();
                    Fido2PinNav::Stay
                } else {
                    Fido2PinNav::ChangePin { current: self.current_pin.clone(), new: self.new_pin.clone() }
                }
            },
        }
    }

    /// Edits the field of the current step; enter goes on (see [`Self::next_step`]).
    pub fn on_key(&mut self, key: PinKey) -> (nav: Fido2PinNav)
        ensures
            match key {
                PinKey::Esc => nav is Cancel && final(self).step == old(self).step,
                PinKey::Char(_) | PinKey::Backspace => {
                    &&& nav is Stay
                    &&& final(self).step == old(self).step
                    &&& final(self).current_pin@ == if old(self).step == PinChangeStep::EnterCurrent {
                        edited(old(self).current_pin@, key)
                    } else {
                        old(self).current_pin@
                    }
                    &&& final(self).new_pin@ == if old(self).step == PinChangeStep::EnterNew {
                        edited(old(self).new_pin@, key)
                    } else {
                        old(self).new_pin@
                    }
                    &&& final(self).confirm_pin@ == if old(self).step == PinChangeStep::ConfirmNew {
                        edited(old(self).confirm_pin@, key)
                    } else {
                        old(self).confirm_pin@
                    }
                },
                PinKey::Enter => final(self).current_pin@ == old(self).current_pin@
                    && final(self).new_pin@ == old(self).new_pin@,
                _ => nav is Stay && final(self).step == old(self).step,
            },
    {
        match key {
            PinKey::Esc => Fido2PinNav::Cancel,
            PinKey::Enter => self.next_step(),
            PinKey::Char(_) | PinKey::Backspace => {
                match self.step {
                    PinChangeStep::EnterCurrent => edit(&mut self.current_pin, key),
                    PinChangeStep::EnterNew => edit(&mut self.new_pin, key),
                    PinChangeStep::ConfirmNew => edit(&mut self.confirm_pin, key),
                }
                Fido2PinNav::Stay
            },
            _ => Fido2PinNav::Stay,
        }
    }

    /// The authenticator's answer: done, or its error shown.
    pub fn on_result(&mut self, result: Result<(), String>) -> (nav: Fido2PinNav)
        ensures
            match result {
                Ok(_) => nav matches Fido2PinNav::Done { title, body } && title@ == "Success"@
                    && body@ == "PIN changed successfully."@,
                Err(e) => nav is Stay && (final(self).error_message matches Some(m) && m@ == e@),
            },
    {
        match result {
            Ok(_) => Fido2PinNav::Done {
                title: String::from_str("Success"),
                body: String::from_str("PIN changed successfully."),
            },
            Err(e) => {
                self.error_message = Some(e);
                Fido2PinNav::Stay
            },
        }
    }
}

/// The screen that asks for the PIN before the passkeys are listed.
#[derive(Debug)]
pub struct PinAuthScreen {
    pub pin_input: String,
    pub error_message: Option<String>,
}

impl PinAuthScreen {
    /// An empty screen.
    pub fn new() -> (s: Self)
        ensures
            s.pin_input@.len() == 0,
            s.error_message is None,
    {
        PinAuthScreen { pin_input: String::new(), error_message: None }
    }

    /// Edits the PIN; enter asks to list the passkeys with it.
    pub fn on_key(&mut self, key: PinKey) -> (nav: Fido2PinNav)
        ensures
            final(self).error_message == old(self).error_message,
            match key {
                PinKey::Esc => nav is Cancel && final(self).pin_input@ == old(self).pin_input@,
                PinKey::Enter => nav matches Fido2PinNav::Authenticate(p) && p@ == old(self).pin_input@
                    && final(self).pin_input@ == old(self).pin_input@,
                _ => nav is Stay && final(self).pin_input@ == edited(old(self).pin_input@, key),
            },
    {
        match key {
            PinKey::Esc => Fido2PinNav::Cancel,
            PinKey::Enter => Fido2PinNav::Authenticate(self.pin_input.clone()),
            _ => {
                edit(&mut self.pin_input, key);
                Fido2PinNav::Stay
            },
        }
    }

    /// A refused PIN: "Invalid PIN: " and the error are shown, the field emptied.
    pub fn on_failure(&mut self, error: &str)
        ensures
            final(self).pin_input@.len() == 0,
            final(self).error_message matches Some(m) && m@ == "Invalid PIN: "@ + error@,
    {
        let mut m = String::from_str("Invalid PIN: ");
        m.append(error);
        self.error_message = Some(m);
        self.pin_input = String::new();
    }
}

/// The question before a passkey is deleted.
pub open spec fn delete_passkey_body(rp_id: Seq<char>, user_name: Seq<char>) -> Seq<char> {
    "Permanently delete passkey for '"@ + rp_id + "'?\n\nUser: "@ + user_name + "\n\nThis cannot be undone."@
}

/// What the passkey deletion asks for once confirmed.
#[derive(Debug)]
pub enum DeleteCredentialNav {
    /// Delete the passkey with the PIN that was entered before.
    Delete { pin: String, credential_id: Vec<u8> },
    /// No PIN is known yet: ask for it first.
    AskPin,
    /// Close the confirmation and show a message.
    Popup { title: String, body: String },
}

/// The confirmation before one passkey is deleted.
#[derive(Debug)]
pub struct DeleteCredentialScreen {
    pub rp_id: String,
    pub user_name: String,
    pub credential_id: Vec<u8>,
    pub cached_pin: Option<String>,
    /// The question shown under the "Delete Passkey" title.
    pub body: String,
}

impl DeleteCredentialScreen {
    /// The confirmation for a passkey of a relying party and user.
    pub fn new(rp_id: String, user_name: String, credential_id: Vec<u8>, cached_pin: Option<String>) -> (s: Self)
        ensures
            s.rp_id@ == rp_id@,
            s.user_name@ == user_name@,
            s.credential_id@ == credential_id@,
            s.cached_pin == cached_pin,
            s.body@ == delete_passkey_body(rp_id@, user_name@),
    {
        let mut body = String::from_str("Permanently delete passkey for '");
        body.append(rp_id.as_str());
        body.append("'?\n\nUser: ");
        body.append(user_name.as_str());
        body.append("\n\nThis cannot be undone.");
        DeleteCredentialScreen { rp_id, user_name, credential_id, cached_pin, body }
    }

    /// Confirmed: delete with the known PIN, else ask for the PIN first.
    pub fn confirm(&self) -> (nav: DeleteCredentialNav)
        ensures
            match self.cached_pin {
                Some(p) => nav matches DeleteCredentialNav::Delete { pin, credential_id } && pin@ == p@
                    && credential_id@ == self.credential_id@,
                None => nav is AskPin,
            },
    {
        match &self.cached_pin {
            Some(p) => DeleteCredentialNav::Delete { pin: p.clone(), credential_id: self.credential_id.clone() },
            None => DeleteCredentialNav::AskPin,
        }
    }

    /// The message once the deletion has run, given its result (the error's text
    /// where it failed).
    pub fn outcome(&self, result: Result<(), String>) -> (nav: DeleteCredentialNav)
        ensures
            match result {
                Ok(_) => nav matches DeleteCredentialNav::Popup { title, body } && title@ == "Success"@
                    && body@ == "'"@ + self.rp_id@ + "' credential deleted."@,
                Err(e) => nav matches DeleteCredentialNav::Popup { title, body } && title@ == "Error"@
                    && body@ == "Delete failed: "@ + e@,
            },
    {
        match result {
            Ok(_) => {
                let mut body = String::from_str("'");
                body.append(self.rp_id.as_str());
                body.append("' credential deleted.");
                DeleteCredentialNav::Popup { title: String::from_str("Success"), body }
            },
            Err(e) => {
                let mut body = String::from_str("Delete failed: ");
                body.append(e.as_str());
                DeleteCredentialNav::Popup { title: String::from_str("Error"), body }
            },
        }
    }
}

/// The phases of the guided FIDO2 reset.
#[derive(Debug)]
pub enum ResetPhase {
    /// The user is told to unplug the key.
    WaitingForUnplug,
    /// The countdown runs, with this many seconds left, waiting for the key.
    WaitingForReplug(u8),
    /// The key is back: the reset command is being sent.
    Resetting,
    /// The reset succeeded.
    Success,
    /// The window passed without the key.
    Expired,
    /// The reset command failed with this message.
    Error(String),
}

/// The warning that a FIDO2 reset deletes every passkey and the PIN.
pub open spec fn reset_warning_text() -> Seq<char> {
    "WARNING: This will permanently delete ALL passkeys and the FIDO2 PIN.\n\nAll FIDO2 credentials stored on this YubiKey will be destroyed.\nThis action cannot be undone.\n\nAre you sure you want to proceed?"@
}

/// The answers to the reset warning.
#[derive(Debug, Clone, Copy, PartialEq, Eq, Structural)]
pub enum ResetConfirmAction {
    Confirm,
    Cancel,
}

/// Where the reset warning leads.
#[derive(Debug, Clone, Copy, PartialEq, Eq, Structural)]
pub enum ResetConfirmNav {
    /// Close the warning and open the guided reset.
    StartGuidance,
    /// Close the warning.
    Close,
}

/// The destructive confirmation shown before a FIDO2 reset.
#[derive(Debug)]
pub struct ResetConfirmScreen {
    pub inner: ConfirmScreen,
}

impl ResetConfirmScreen {
    /// The warning, titled "Reset FIDO2 Applet" and marked destructive.
    pub fn new() -> (s: Self)
        ensures
            s.inner.title@ == "Reset FIDO2 Applet"@,
            s.inner.message@ == reset_warning_text(),
            s.inner.destructive,
            !s.inner.confirmed,
    {
        let body = String::from_str(
            "WARNING: This will permanently delete ALL passkeys and the FIDO2 PIN.\n\nAll FIDO2 credentials stored on this YubiKey will be destroyed.\nThis action cannot be undone.\n\nAre you sure you want to proceed?",
        );
        ResetConfirmScreen {
            inner: ConfirmScreen::new(String::from_str("Reset FIDO2 Applet"), body, true),
        }
    }

    /// Confirming opens the guided reset; cancelling closes the warning.
    pub fn on_action(&self, action: ResetConfirmAction) -> (nav: ResetConfirmNav)
        ensures
            nav == match action {
                ResetConfirmAction::Confirm => ResetConfirmNav::StartGuidance,
                ResetConfirmAction::Cancel => ResetConfirmNav::Close,
            },
    {
        match action {
            ResetConfirmAction::Confirm => ResetConfirmNav::StartGuidance,
            ResetConfirmAction::Cancel => ResetConfirmNav::Close,
        }
    }
}

/// How the replug countdown ended.
#[derive(Debug, Clone, Copy, PartialEq, Eq, Structural)]
pub enum ResetWorkerResult {
    /// The key was found within the window.
    DeviceFound,
    /// The window passed.
    Expired,
}

/// What happens to the reset screen: a key binding, or news from the countdown
/// or from the reset command.
#[derive(Debug)]
pub enum ResetEvent {
    /// Enter.
    Next,
    /// Escape.
    Cancel,
    /// The countdown reached this many seconds.
    Progress(u8),
    /// How the countdown ended.
    Worker(ResetWorkerResult),
    /// The reset command's result (its error's text where it failed).
    ResetDone(Result<(), String>),
}

/// What the application does next for the reset screen.
#[derive(Debug, Clone, Copy, PartialEq, Eq, Structural)]
pub enum ResetCommand {
    /// Nothing: draw the screen again.
    Stay,
    /// Close the screen.
    Close,
    /// Start the ten-second countdown (see [`countdown_tick`]).
    StartCountdown,
    /// Send the reset command to the key that was found.
    SendReset,
}

/// The guided reset: unplug, replug within ten seconds, reset.
#[derive(Debug)]
pub struct ResetGuidanceScreen {
    pub phase: ResetPhase,
}

impl ResetGuidanceScreen {
    /// The screen at its first phase.
    pub fn new() -> (s: Self)
        ensures
            s.phase is WaitingForUnplug,
    {
        ResetGuidanceScreen { phase: ResetPhase::WaitingForUnplug }
    }

    /// The reset screen after an event, and what the application does next: enter
    /// starts the countdown, closes after success, and starts over after an expired
    /// window; the countdown's news moves the phase; the key's arrival sends the reset.
    pub fn on_event(&mut self, event: ResetEvent) -> (cmd: ResetCommand)
        ensures
            match event {
                ResetEvent::Cancel => cmd == ResetCommand::Close && final(self).phase == old(self).phase,
                ResetEvent::Next => match old(self).phase {
                    ResetPhase::WaitingForUnplug => cmd == ResetCommand::StartCountdown
                        && final(self).phase == ResetPhase::WaitingForReplug(10),
                    ResetPhase::Success => cmd == ResetCommand::Close && final(self).phase == old(self).phase,
                    ResetPhase::Expired => cmd == ResetCommand::Stay && final(self).phase is WaitingForUnplug,
                    _ => cmd == ResetCommand::Stay && final(self).phase == old(self).phase,
                },
                ResetEvent::Progress(s) => cmd == ResetCommand::Stay && final(self).phase == ResetPhase::WaitingForReplug(s),
                ResetEvent::Worker(ResetWorkerResult::DeviceFound) => cmd == ResetCommand::SendReset
                    && final(self).phase is Resetting,
                ResetEvent::Worker(ResetWorkerResult::Expired) => cmd == ResetCommand::Stay
                    && final(self).phase is Expired,
                ResetEvent::ResetDone(r) => cmd == ResetCommand::Stay && match r {
                    Ok(_) => final(self).phase is Success,
                    Err(m) => final(self).phase matches ResetPhase::Error(e) && e@ == m@,
                },
            },
    {
        match event {
            ResetEvent::Cancel => ResetCommand::Close,
            ResetEvent::Next => {
                match self.phase {
                    ResetPhase::WaitingForUnplug => {
                        self.phase = ResetPhase::WaitingForReplug(10);
                        ResetCommand::StartCountdown
                    },
                    ResetPhase::Success => ResetCommand::Close,
                    ResetPhase::Expired => {
                        self.phase = ResetPhase::WaitingForUnplug;
                        ResetCommand::Stay
                    },
                    _ => ResetCommand::Stay,
                }
            },
            ResetEvent::Progress(s) => {
                self.phase = ResetPhase::WaitingForReplug(s);
                ResetCommand::Stay
            },
            ResetEvent::Worker(ResetWorkerResult::DeviceFound) => {
                self.phase = ResetPhase::Resetting;
                ResetCommand::SendReset
            },
            ResetEvent::Worker(ResetWorkerResult::Expired) => {
                self.phase = ResetPhase::Expired;
                ResetCommand::Stay
            },
            ResetEvent::ResetDone(r) => {
                match r {
                    Ok(_) => {
                        self.phase = ResetPhase::Success;
                    },
                    Err(m) => {
                        self.phase = ResetPhase::Error(m);
                    },
                }
                ResetCommand::Stay
            },
        }
    }
}

/// `Time remaining: {secs}s  [####    ]`: twenty cells, two filled per second
/// left (all twenty from ten seconds up).
pub open spec fn countdown_bar(secs: u8) -> Seq<char> {
    let filled: nat = if 2 * secs <= 20 { (2 * secs) as nat } else { 20 };
    "Time remaining: "@ + decimal(secs as nat) + "s  ["@ + Seq::new(filled, |i: int| '#')
        + Seq::new((20 - filled) as nat, |i: int| ' ') + "]"@
}

/// The text of the guided reset in each phase.
pub open spec fn reset_guidance_text(phase: ResetPhase) -> Seq<Seq<char>> {
    match phase {
        ResetPhase::WaitingForUnplug => seq![
            "FIDO2 protocol requires the device to receive the reset command"@,
            "within 10 seconds of being plugged in."@,
            ""@,
            "Step 1: Unplug your YubiKey now."@,
            "Step 2: Wait for the countdown to start."@,
            "Step 3: Replug your YubiKey when prompted."@,
            ""@,
            "Press Enter when your YubiKey is unplugged, or Esc to cancel."@,
        ],
        ResetPhase::WaitingForReplug(secs) => seq![
            "FIDO2 protocol requires reset within 10s of power-on (USB insertion)."@,
            ""@,
            ">> Plug in your YubiKey NOW <<"@,
            ""@,
            countdown_bar(secs),
            ""@,
            "Waiting for device..."@,
        ],
        ResetPhase::Resetting => seq!["Device detected! Sending reset command..."@],
        ResetPhase::Success => seq![
            "FIDO2 applet has been reset to factory defaults."@,
            "All passkeys and the FIDO2 PIN have been removed."@,
            ""@,
            "Press Enter or Esc to return."@,
        ],
        ResetPhase::Expired => seq![
            "Window expired -- the 10-second timing window has passed."@,
            "The device was not replugged in time."@,
            ""@,
            "Press Enter to try again, or Esc to cancel."@,
        ],
        ResetPhase::Error(m) => seq!["Reset failed: "@ + m@, ""@, "Press Esc to return."@],
    }
}

fn countdown_bar_text(secs: u8) -> (s: String)
    ensures
        s@ == countdown_bar(secs),
{
    let filled: usize = if secs <= 10 { 2 * (secs as usize) } else { 20 };
    let mut s = String::from_str("Time remaining: ");
    push_decimal(&mut s, secs as u64);
    s.append("s  [");
    let ghost head = s@;
    let mut i: usize = 0;
    while i < filled
        invariant
            i <= filled <= 20,
            s@ == head + Seq::new(i as nat, |k: int| '#'),
        decreases filled - i,
    {
        push_char(&mut s, '#');
        i = i + 1;
        assert(s@ =~= head + Seq::new(i as nat, |k: int| '#'));
    }
    let ghost mid = s@;
    let mut j: usize = 0;
    while j < 20 - filled
        invariant
            filled <= 20,
            j <= 20 - filled,
            s@ == mid + Seq::new(j as nat, |k: int| ' '),
        decreases 20 - filled - j,
    {
        push_char(&mut s, ' ');
        j = j + 1;
        assert(s@ =~= mid + Seq::new(j as nat, |k: int| ' '));
    }
    push_char(&mut s, ']');
    proof {
        reveal_strlit("Time remaining: ");
        reveal_strlit("s  [");
        reveal_strlit("]");
    }
    assert(s@ =~= countdown_bar(secs));
    s
}

impl ResetGuidanceScreen {
    /// The text shown in the current phase.
    pub fn lines(&self) -> (v: Vec<String>)
        ensures
            string_views(v@) == reset_guidance_text(self.phase),
    {
        let mut v: Vec<String> = Vec::new();
        match &self.phase {
            ResetPhase::WaitingForUnplug => {
                push_line(&mut v, String::from_str("FIDO2 protocol requires the device to receive the reset command"));
                push_line(&mut v, String::from_str("within 10 seconds of being plugged in."));
                push_line(&mut v, String::from_str(""));
                push_line(&mut v, String::from_str("Step 1: Unplug your YubiKey now."));
                push_line(&mut v, String::from_str("Step 2: Wait for the countdown to start."));
                push_line(&mut v, String::from_str("Step 3: Replug your YubiKey when prompted."));
                push_line(&mut v, String::from_str(""));
                push_line(&mut v, String::from_str("Press Enter when your YubiKey is unplugged, or Esc to cancel."));
            },
            ResetPhase::WaitingForReplug(secs) => {
                push_line(&mut v, String::from_str("FIDO2 protocol requires reset within 10s of power-on (USB insertion)."));
                push_line(&mut v, String::from_str(""));
                push_line(&mut v, String::from_str(">> Plug in your YubiKey NOW <<"));
                push_line(&mut v, String::from_str(""));
                push_line(&mut v, countdown_bar_text(*secs));
                push_line(&mut v, String::from_str(""));
                push_line(&mut v, String::from_str("Waiting for device..."));
            },
            ResetPhase::Resetting => {
                push_line(&mut v, String::from_str("Device detected! Sending reset command..."));
            },
            ResetPhase::Success => {
                push_line(&mut v, String::from_str("FIDO2 applet has been reset to factory defaults."));
                push_line(&mut v, String::from_str("All passkeys and the FIDO2 PIN have been removed."));
                push_line(&mut v, String::from_str(""));
                push_line(&mut v, String::from_str("Press Enter or Esc to return."));
            },
            ResetPhase::Expired => {
                push_line(&mut v, String::from_str("Window expired -- the 10-second timing window has passed."));
                push_line(&mut v, String::from_str("The device was not replugged in time."));
                push_line(&mut v, String::from_str(""));
                push_line(&mut v, String::from_str("Press Enter to try again, or Esc to cancel."));
            },
            ResetPhase::Error(m) => {
                let mut l = String::from_str("Reset failed: ");
                l.append(m.as_str());
                push_line(&mut v, l);
                push_line(&mut v, String::from_str(""));
                push_line(&mut v, String::from_str("Press Esc to return."));
            },
        }
        assert(string_views(v@) =~= reset_guidance_text(self.phase));
        v
    }
}

/// One second of the countdown.
#[derive(Debug, Clone, Copy, PartialEq, Eq, Structural)]
pub enum CountdownTick {
    /// The key is present: the reset can be sent.
    Found,
    /// Wait a second; this many seconds are then left.
    Wait(u8),
    /// The window has passed.
    Expired,
}

/// The countdown at `secs` seconds left (after reporting them), given whether a
/// FIDO key is present: found while time is left, expired at zero, else one
/// second less.
pub fn countdown_tick(secs: u8, device_present: bool) -> (t: CountdownTick)
    ensures
        t == (if secs > 0 && device_present {
            CountdownTick::Found
        } else if secs == 0 {
            CountdownTick::Expired
        } else {
            CountdownTick::Wait((secs - 1) as u8)
        }),
{
    if secs > 0 && device_present {
        CountdownTick::Found
    } else if secs == 0 {
        CountdownTick::Expired
    } else {
        CountdownTick::Wait(secs - 1)
    }
}

/// The passkey list's cursor and the PIN entered for it.
#[derive(Debug)]
pub struct Fido2TuiState {
    pub selected_index: usize,
    pub pin_authenticated: bool,
    pub cached_pin: Option<String>,
}

impl Default for Fido2TuiState {
    /// At the top, no PIN entered.
    fn default() -> (s: Self)
        ensures
            s.selected_index == 0,
            !s.pin_authenticated,
            s.cached_pin is None,
    {
        Fido2TuiState { selected_index: 0, pin_authenticated: false, cached_pin: None }
    }
}

/// The key bindings of the FIDO2 screen.
#[derive(Debug, Clone, Copy, PartialEq, Eq, Structural)]
pub enum Fido2Action {
    Back,
    Up,
    Down,
    SetPin,
    DeleteCredential,
    AuthenticatePin,
    Reset,
}

/// Where the FIDO2 screen sends the user.
#[derive(Debug)]
pub enum Fido2Nav {
    Stay,
    Back,
    SetPin(PinSetScreen),
    ChangePin(PinChangeScreen),
    Delete(DeleteCredentialScreen),
    Authenticate(PinAuthScreen),
    /// The warning before a reset.
    ConfirmReset,
}

/// The number of passkeys listed (none while locked or without a state).
pub open spec fn passkey_count(s: Option<Fido2State>) -> int {
    match s {
        Some(st) => match st.credentials {
            Some(c) => c@.len() as int,
            None => 0,
        },
        None => 0,
    }
}

/// The FIDO2 screen: the authenticator's state and the passkey cursor.
#[derive(Debug)]
pub struct Fido2Screen {
    pub fido2_state: Option<Fido2State>,
    pub state: Fido2TuiState,
}

impl Fido2Screen {
    /// The screen for a state, at the top of the list, without a PIN.
    pub fn new(fido2_state: Option<Fido2State>) -> (s: Self)
        ensures
            s.fido2_state == fido2_state,
            s.state.selected_index == 0 && !s.state.pin_authenticated && s.state.cached_pin is None,
    {
        Fido2Screen { fido2_state, state: Fido2TuiState::default() }
    }

    /// An action on the screen: the cursor moves within the passkeys; the PIN
    /// action changes a set PIN, else sets a first one; delete asks to confirm for
    /// the selected passkey with the PIN entered before.
    pub fn on_action(&mut self, action: Fido2Action) -> (nav: Fido2Nav)
        ensures
            final(self).fido2_state == old(self).fido2_state,
            final(self).state.cached_pin == old(self).state.cached_pin,
            final(self).state.pin_authenticated == old(self).state.pin_authenticated,
            final(self).state.selected_index == (match action {
                Fido2Action::Up => if old(self).state.selected_index > 0 {
                    old(self).state.selected_index - 1
                } else {
                    old(self).state.selected_index as int
                },
                Fido2Action::Down => if old(self).state.selected_index + 1 < passkey_count(old(self).fido2_state) {
                    old(self).state.selected_index + 1
                } else {
                    old(self).state.selected_index as int
                },
                _ => old(self).state.selected_index as int,
            }),
            match action {
                Fido2Action::Back => nav is Back,
                Fido2Action::SetPin => if (old(self).fido2_state matches Some(st) && st.pin_is_set) {
                    nav matches Fido2Nav::ChangePin(p) && p.step == PinChangeStep::EnterCurrent
                        && p.current_pin@.len() == 0 && p.new_pin@.len() == 0 && p.confirm_pin@.len() == 0
                        && p.error_message is None
                } else {
                    nav matches Fido2Nav::SetPin(p) && p.step == PinSetStep::EnterNew && p.new_pin@.len() == 0
                        && p.confirm_pin@.len() == 0 && p.error_message is None
                },
                Fido2Action::DeleteCredential => if old(self).state.selected_index < passkey_count(old(self).fido2_state) {
                    let c = old(self).fido2_state.unwrap().credentials.unwrap()@[old(self).state.selected_index as int];
                    nav matches Fido2Nav::Delete(d) && d.rp_id@ == c.rp_id@ && d.user_name@ == c.user_name@
                        && d.credential_id@ == c.credential_id@ && d.cached_pin == old(self).state.cached_pin
                        && d.body@ == delete_passkey_body(c.rp_id@, c.user_name@)
                } else {
                    nav is Stay
                },
                Fido2Action::AuthenticatePin => nav matches Fido2Nav::Authenticate(a) && a.pin_input@.len() == 0
                    && a.error_message is None,
                Fido2Action::Reset => nav is ConfirmReset,
                _ => nav is Stay,
            },
    {
        match action {
            Fido2Action::Back => Fido2Nav::Back,
            Fido2Action::Up => {
                if self.state.selected_index > 0 {
                    self.state.selected_index = self.state.selected_index - 1;
                }
                Fido2Nav::Stay
            },
            Fido2Action::Down => {
                let count: usize = match &self.fido2_state {
                    Some(st) => match &st.credentials {
                        Some(c) => c.len(),
                        None => 0,
                    },
                    None => 0,
                };
                if count > 0 && self.state.selected_index < count - 1 {
                    self.state.selected_index = self.state.selected_index + 1;
                }
                Fido2Nav::Stay
            },
            Fido2Action::SetPin => {
                let pin_is_set = match &self.fido2_state {
                    Some(st) => st.pin_is_set,
                    None => false,
                };
                if pin_is_set {
                    Fido2Nav::ChangePin(PinChangeScreen::new())
                } else {
                    Fido2Nav::SetPin(PinSetScreen::new())
                }
            },
            Fido2Action::DeleteCredential => {
                let i = self.state.selected_index;
                match &self.fido2_state {
                    Some(st) => match &st.credentials {
                        Some(creds) => {
                            if i < creds.len() {
                                let c = &creds[i];
                                let pin = match &self.state.cached_pin {
                                    Some(p) => Some(p.clone()),
                                    None => None,
                                };
                                Fido2Nav::Delete(
                                    DeleteCredentialScreen::new(
                                        c.rp_id.clone(),
                                        c.user_name.clone(),
                                        c.credential_id.clone(),
                                        pin,
                                    ),
                                )
                            } else {
                                Fido2Nav::Stay
                            }
                        },
                        None => Fido2Nav::Stay,
                    },
                    None => Fido2Nav::Stay,
                }
            },
            Fido2Action::AuthenticatePin => Fido2Nav::Authenticate(PinAuthScreen::new()),
            Fido2Action::Reset => Fido2Nav::ConfirmReset,
        }
    }
}

/// `s` padded with spaces to at least 30 characters (`{:<30}`).
pub open spec fn pad30(s: Seq<char>) -> Seq<char> {
    if s.len() >= 30 {
        s
    } else {
        s + Seq::new((30 - s.len()) as nat, |i: int| ' ')
    }
}

/// A passkey line: marker, relying party padded to 30 characters, user.
pub open spec fn passkey_line(c: Fido2CredentialView, selected: bool) -> Seq<char> {
    "  "@ + (if selected { ">"@ } else { " "@ }) + " "@ + pad30(c.rp_id) + "  "@ + c.user_name
}

/// The passkey section: why there is no list, or the list.
pub open spec fn passkey_section(st: Fido2State, sel: int) -> Seq<Seq<char>> {
    if !st.pin_is_set {
        seq!["No PIN configured -- press S to set one."@]
    } else if st.credentials is None {
        seq!["Credentials locked -- press P to authenticate"@]
    } else if !st.supports_cred_mgmt {
        seq!["Passkey management requires CTAP 2.1 (not supported by this device)"@]
    } else {
        let creds = fido2_views(st.credentials.unwrap()@);
        if creds.len() == 0 {
            seq!["No passkeys stored on this device."@]
        } else {
            seq!["Passkeys ("@ + decimal(creds.len()) + ")"@] + Seq::new(
                creds.len(),
                |i: int| passkey_line(creds[i], i == sel),
            )
        }
    }
}

/// What the FIDO2 screen shows under its header.
pub open spec fn fido2_lines(s: Option<Fido2State>, sel: int) -> Seq<Seq<char>> {
    match s {
        None => seq![""@, "No YubiKey detected. Insert your YubiKey and press Esc to return."@, ""@],
        Some(st) => seq![
            ""@,
            "Firmware: "@ + match st.firmware_version {
                Some(f) => f@,
                None => "Unknown"@,
            },
            "Algorithms: "@ + if st.algorithms@.len() == 0 {
                "None reported"@
            } else {
                joined(string_views(st.algorithms@), ", "@)
            },
            if st.pin_is_set {
                "PIN: Set ("@ + decimal(st.pin_retry_count as nat) + " retries remaining)"@
            } else {
                "PIN: Not set"@
            },
            ""@,
        ] + passkey_section(st, sel) + seq![""@],
    }
}

fn padded30(s: &str) -> (r: String)
    ensures
        r@ == pad30(s@),
{
    let mut r = String::from_str(s);
    let n = s.unicode_len();
    let mut k = n;
    while k < 30
        invariant
            n == s@.len(),
            n <= k <= 30 || (n > 30 && k == n),
            r@ == s@ + Seq::new((k - n) as nat, |i: int| ' '),
        decreases 30 - k,
    {
        push_char(&mut r, ' ');
        k = k + 1;
        assert(r@ =~= s@ + Seq::new((k - n) as nat, |i: int| ' '));
    }
    assert(n < 30 ==> r@ =~= pad30(s@));
    assert(n >= 30 ==> r@ =~= pad30(s@));
    r
}

fn line(s: &str) -> (r: String)
    ensures
        r@ == s@,
{
    String::from_str(s)
}

impl Fido2Screen {
    fn passkey_lines(&self, st: &Fido2State, out: &mut Vec<String>)
        requires
            self.fido2_state == Some(*st),
        ensures
            string_views(final(out)@) == string_views(old(out)@) + passkey_section(*st, self.state.selected_index as int),
    {
        let ghost start = string_views(out@);
        if !st.pin_is_set {
            push_line(out, line("No PIN configured -- press S to set one."));
        } else {
            match &st.credentials {
                None => {
                    push_line(out, line("Credentials locked -- press P to authenticate"));
                },
                Some(creds) => {
                    if !st.supports_cred_mgmt {
                        push_line(out, line("Passkey management requires CTAP 2.1 (not supported by this device)"));
                    } else if creds.len() == 0 {
                        push_line(out, line("No passkeys stored on this device."));
                    } else {
                        let mut h = String::from_str("Passkeys (");
                        push_decimal(&mut h, creds.len() as u64);
                        h.append(")");
                        push_line(out, h);
                        let ghost head = string_views(out@);
                        let sel = self.state.selected_index;
                        let mut i: usize = 0;
                        while i < creds.len()
                            invariant
                                i <= creds@.len(),
                                string_views(out@) == head + Seq::new(
                                    i as nat,
                                    |k: int| passkey_line(fido2_views(creds@)[k], k == sel),
                                ),
                            decreases creds@.len() - i,
                        {
                            let c = &creds[i];
                            let mut l = String::from_str("  ");
                            l.append(if i == sel { ">" } else { " " });
                            l.append(" ");
                            let p = padded30(c.rp_id.as_str());
                            l.append(p.as_str());
                            l.append("  ");
                            l.append(c.user_name.as_str());
                            assert(fido2_views(creds@)[i as int] == creds@[i as int]@);
                            push_line(out, l);
                            i = i + 1;
                            assert(string_views(out@) =~= head + Seq::new(
                                i as nat,
                                |k: int| passkey_line(fido2_views(creds@)[k], k == sel),
                            ));
                        }
                    }
                },
            }
        }
        assert(string_views(out@) =~= start + passkey_section(*st, self.state.selected_index as int));
    }

    /// What the screen shows under its "FIDO2 / Security Key" header (see
    /// [`fido2_lines`]).
    pub fn lines(&self) -> (r: Vec<String>)
        ensures
            string_views(r@) == fido2_lines(self.fido2_state, self.state.selected_index as int),
    {
        let mut out: Vec<String> = Vec::new();
        match &self.fido2_state {
            None => {
                push_line(&mut out, line(""));
                push_line(&mut out, line("No YubiKey detected. Insert your YubiKey and press Esc to return."));
            },
            Some(st) => {
                push_line(&mut out, line(""));
                let mut f = String::from_str("Firmware: ");
                match &st.firmware_version {
                    Some(v) => f.append(v.as_str()),
                    None => f.append("Unknown"),
                }
                push_line(&mut out, f);
                let mut a = String::from_str("Algorithms: ");
                if st.algorithms.len() == 0 {
                    a.append("None reported");
                } else {
                    let j = join_strings(&st.algorithms, ", ");
                    a.append(j.as_str());
                }
                push_line(&mut out, a);
                if st.pin_is_set {
                    let mut p = String::from_str("PIN: Set (");
                    push_decimal(&mut p, st.pin_retry_count as u64);
                    p.append(" retries remaining)");
                    push_line(&mut out, p);
                } else {
                    push_line(&mut out, line("PIN: Not set"));
                }
                push_line(&mut out, line(""));
                self.passkey_lines(st, &mut out);
            },
        }
        push_line(&mut out, line(""));
        assert(string_views(out@) =~= fido2_lines(self.fido2_state, self.state.selected_index as int));
        out
    }
}

} // verus!
