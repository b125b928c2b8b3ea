//! The OATH password forms: unlock, set, change and remove. Each form edits its
//! fields, checks them, and asks the application to run the card operation; the
//! operation's result comes back to the form.
use vstd::prelude::*;
use vstd::string::*;
use crate::tui::widgets::pin_input::{edit, edited, PinKey};

verus! {

/// What a password form asks for after a key or a result.
#[derive(Debug)]
pub enum OathPasswordNav {
    /// Stay on the form (drawn again).
    Stay,
    /// Close the form.
    Cancel,
    /// Open the OATH application with this password.
    Unlock(String),
    /// Set this password on the OATH application.
    SetPassword(String),
    /// Replace the current password by the new one.
    ChangePassword { current: String, new: String },
    /// Remove the password, confirmed by the current one.
    RemovePassword(String),
    /// Close the form and the password menu below it, and show a message.
    Done { title: String, body: String },
}

/// The form that asks for the password of a locked OATH application.
#[derive(Debug)]
pub struct OathUnlockScreen {
    pub input: String,
    pub error: Option<String>,
}

impl OathUnlockScreen {
    /// An empty form.
    pub fn new() -> (s: Self)
        ensures
            s.input@.len() == 0,
            s.error is None,
    {
        OathUnlockScreen { input: String::new(), error: None }
    }

    /// Edits the password; enter asks to unlock with it, or refuses an empty one.
    pub fn on_key(&mut self, key: PinKey) -> (nav: OathPasswordNav)
        ensures
            match key {
                PinKey::Esc => nav is Cancel && final(self).input@ == old(self).input@
                    && final(self).error == old(self).error,
                PinKey::Enter => final(self).input@ == old(self).input@ && if old(self).input@.len() == 0 {
                    nav is Stay && (final(self).error matches Some(e) && e@ == "Password cannot be empty"@)
                } else {
                    nav matches OathPasswordNav::Unlock(p) && p@ == old(self).input@
                        && final(self).error == old(self).error
                },
                _ => nav is Stay && final(self).input@ == edited(old(self).input@, key)
                    && final(self).error == old(self).error,
            },
    {
        match key {
            PinKey::Esc => OathPasswordNav::Cancel,
            PinKey::Enter => {
                if self.input.as_str().unicode_len() == 0 {
                    self.error = Some(String::from_str("Password cannot be empty"));
                    OathPasswordNav::Stay
                } else {
                    OathPasswordNav::Unlock(self.input.clone())
                }
            },
            _ => {
                edit(&mut self.input, key);
                OathPasswordNav::Stay
            },
        }
    }

    /// A refused password: its error is shown and the field is emptied.
    pub fn on_failure(&mut self, error: String)
        ensures
            final(self).input@.len() == 0,
            final(self).error matches Some(e) && e@ == error@,
    {
        self.error = Some(error);
        self.input = String::new();
    }
}

/// The form that sets a first password: the new one, then its confirmation.
#[derive(Debug)]
pub struct OathSetPasswordScreen {
    pub new_pw: String,
    pub confirm_pw: String,
    /// 0 for the new password, 1 for its confirmation.
    pub active_field: u8,
    pub error: Option<String>,
}

impl OathSetPasswordScreen {
    /// The active field is one of the two.
    pub open spec fn wf(&self) -> bool {
        self.active_field <= 1
    }

    /// An empty form on its first field.
    pub fn new() -> (s: Self)
        ensures
            s.wf(),
            s.new_pw@.len() == 0 && s.confirm_pw@.len() == 0,
            s.active_field == 0,
            s.error is None,
    {
        OathSetPasswordScreen { new_pw: String::new(), confirm_pw: String::new(), active_field: 0, error: None }
    }

    /// Checks the two fields: an empty password or a wrong confirmation is refused
    /// with a message (the confirmation is then emptied and made active), else the
    /// application is asked to set the password.
    pub fn submit(&mut self) -> (nav: OathPasswordNav)
        requires
            old(self).wf(),
        ensures
            final(self).wf(),
            final(self).new_pw@ == old(self).new_pw@,
            if old(self).new_pw@.len() == 0 {
                &&& nav is Stay
                &&& final(self).error matches Some(e) && e@ == "Password cannot be empty"@
                &&& final(self).confirm_pw@ == old(self).confirm_pw@
                &&& final(self).active_field == old(self).active_field
            } else if old(self).new_pw@ != old(self).confirm_pw@ {
                &&& nav is Stay
                &&& final(self).error matches Some(e) && e@ == "Passwords do not match"@
                &&& final(self).confirm_pw@.len() == 0
                &&& final(self).active_field == 1
            } else {
                &&& nav matches OathPasswordNav::SetPassword(p) && p@ == old(self).new_pw@
                &&& final(self).error == old(self).error
                &&& final(self).confirm_pw@ == old(self).confirm_pw@
                &&& final(self).active_field == old(self).active_field
            },
    {
        if self.new_pw.as_str().unicode_len() == 0 {
            self.error = Some(String::from_str("Password cannot be empty"));
            OathPasswordNav::Stay
        } else if self.new_pw != self.confirm_pw {
            self.error = Some(String::from_str("Passwords do not match"));
            self.confirm_pw = String::new();
            self.active_field = 1;
            OathPasswordNav::Stay
        } else {
            OathPasswordNav::SetPassword(self.new_pw.clone())
        }
    }

    /// Edits the active field; tab, or enter on the first field, moves to the other
    /// field; enter on the confirmation submits.
    pub fn on_key(&mut self, key: PinKey) -> (nav: OathPasswordNav)
        requires
            old(self).wf(),
        ensures
            final(self).wf(),
            match key {
                PinKey::Esc => nav is Cancel && final(self).new_pw@ == old(self).new_pw@
                    && final(self).confirm_pw@ == old(self).confirm_pw@
                    && final(self).active_field == old(self).active_field,
                PinKey::Enter | PinKey::Tab => if key is Enter && old(self).active_field == 1 {
                    final(self).new_pw@ == old(self).new_pw@
                } else {
                    nav is Stay && final(self).active_field == 1 - old(self).active_field
                        && final(self).new_pw@ == old(self).new_pw@
                        && final(self).confirm_pw@ == old(self).confirm_pw@
                },
                PinKey::Char(_) | PinKey::Backspace => {
                    &&& nav is Stay
                    &&& final(self).active_field == old(self).active_field
                    &&& final(self).new_pw@ == if old(self).active_field == 0 {
                        edited(old(self).new_pw@, key)
                    } else {
                        old(self).new_pw@
                    }
                    &&& final(self).confirm_pw@ == if old(self).active_field == 1 {
                        edited(old(self).confirm_pw@, key)
                    } else {
                        old(self).confirm_pw@
                    }
                },
                _ => nav is Stay && final(self).new_pw@ == old(self).new_pw@
                    && final(self).confirm_pw@ == old(self).confirm_pw@
                    && final(self).active_field == old(self).active_field,
            },
    {
        match key {
            PinKey::Esc => OathPasswordNav::Cancel,
            PinKey::Enter | PinKey::Tab => {
                let is_enter = match key {
                    PinKey::Enter => true,
                    _ => false,
                };
                if is_enter && self.active_field == 1 {
                    self.submit()
                } else {
                    self.active_field = 1 - self.active_field;
                    OathPasswordNav::Stay
                }
            },
            PinKey::Char(_) | PinKey::Backspace => {
                if self.active_field == 0 {
                    edit(&mut self.new_pw, key);
                } else {
                    edit(&mut self.confirm_pw, key);
                }
                OathPasswordNav::Stay
            },
            _ => OathPasswordNav::Stay,
        }
    }

    /// The card's answer to setting the password: done, or its error shown.
    pub fn on_result(&mut self, result: Result<(), String>) -> (nav: OathPasswordNav)
        requires
            old(self).wf(),
        ensures
            final(self).wf(),
            match result {
                Ok(_) => nav matches OathPasswordNav::Done { title, body } && title@ == "Password Set"@
                    && body@ == "OATH application password has been set."@,
                Err(e) => nav is Stay && (final(self).error matches Some(m) && m@ == e@),
            },
    {
        match result {
            Ok(_) => OathPasswordNav::Done {
                title: String::from_str("Password Set"),
                body: String::from_str("OATH application password has been set."),
            },
            Err(e) => {
                self.error = Some(e);
                OathPasswordNav::Stay
            },
        }
    }
}

/// The form that changes the password: the current one, the new one, its confirmation.
#[derive(Debug)]
pub struct OathChangePasswordScreen {
    pub current_pw: String,
    pub new_pw: String,
    pub confirm_pw: String,
    /// 0, 1 or 2: current, new, confirmation.
    pub active_field: u8,
    pub error: Option<String>,
}

impl OathChangePasswordScreen {
    /// The active field is one of the three.
    pub open spec fn wf(&self) -> bool {
        self.active_field <= 2
    }

    /// An empty form on its first field.
    pub fn new() -> (s: Self)
        ensures
            s.wf(),
            s.current_pw@.len() == 0 && s.new_pw@.len() == 0 && s.confirm_pw@.len() == 0,
            s.active_field == 0,
            s.error is None,
    {
        OathChangePasswordScreen {
            current_pw: String::new(),
            new_pw: String::new(),
            confirm_pw: String::new(),
            active_field: 0,
            error: None,
        }
    }

    /// Checks the fields: both passwords are needed and the confirmation must match
    /// (else it is emptied and made active); then the application is asked to change it.
    pub fn submit(&mut self) -> (nav: OathPasswordNav)
        requires
            old(self).wf(),
        ensures
            final(self).wf(),
            final(self).current_pw@ == old(self).current_pw@,
            final(self).new_pw@ == old(self).new_pw@,
            if old(self).current_pw@.len() == 0 || old(self).new_pw@.len() == 0 {
                &&& nav is Stay
                &&& final(self).error matches Some(e) && e@ == "All fields required"@
                &&& final(self).confirm_pw@ == old(self).confirm_pw@
                &&& final(self).active_field == old(self).active_field
            } else if old(self).new_pw@ != old(self).confirm_pw@ {
                &&& nav is Stay
                &&& final(self).error matches Some(e) && e@ == "New passwords do not match"@
                &&& final(self).confirm_pw@.len() == 0
                &&& final(self).active_field == 2
            } else {
                &&& nav matches OathPasswordNav::ChangePassword { current, new }
                &&& current@ == old(self).current_pw@ && new@ == old(self).new_pw@
                &&& final(self).error == old(self).error
                &&& final(self).confirm_pw@ == old(self).confirm_pw@
                &&& final(self).active_field == old(self).active_field
            },
    {
        if self.current_pw.as_str().unicode_len() == 0 || self.new_pw.as_str().unicode_len() == 0 {
            self.error = Some(String::from_str("All fields required"));
            OathPasswordNav::Stay
        } else if self.new_pw != self.confirm_pw {
            self.error = Some(String::from_str("New passwords do not match"));
            self.confirm_pw = String::new();
            self.active_field = 2;
            OathPasswordNav::Stay
        } else {
            OathPasswordNav::ChangePassword { current: self.current_pw.clone(), new: self.new_pw.clone() }
        }
    }

    /// Edits the active field; tab, or enter before the last field, moves on (not
    /// past the last); enter on the last field submits.
    pub fn on_key(&mut self, key: PinKey) -> (nav: OathPasswordNav)
        requires
            old(self).wf(),
        ensures
            final(self).wf(),
            match key {
                PinKey::Esc => nav is Cancel && final(self).active_field == old(self).active_field,
                PinKey::Enter | PinKey::Tab => if key is Enter && old(self).active_field == 2 {
                    final(self).current_pw@ == old(self).current_pw@ && final(self).new_pw@ == old(self).new_pw@
                } else {
                    &&& nav is Stay
                    &&& final(self).active_field == if old(self).active_field < 2 {
                        old(self).active_field + 1
                    } else {
                        old(self).active_field as int
                    }
                    &&& final(self).current_pw@ == old(self).current_pw@
                    &&& final(self).new_pw@ == old(self).new_pw@
                    &&& final(self).confirm_pw@ == old(self).confirm_pw@
                },
                PinKey::Char(_) | PinKey::Backspace => {
                    &&& nav is Stay
                    &&& final(self).active_field == old(self).active_field
                    &&& final(self).current_pw@ == if old(self).active_field == 0 {
                        edited(old(self).current_pw@, key)
                    } else {
                        old(self).current_pw@
                    }
                    &&& final(self).new_pw@ == if old(self).active_field == 1 {
                        edited(old(self).new_pw@, key)
                    } else {
                        old(self).new_pw@
                    }
                    &&& final(self).confirm_pw@ == if old(self).active_field == 2 {
                        edited(old(self).confirm_pw@, key)
                    } else {
                        old(self).confirm_pw@
                    }
                },
                _ => nav is Stay && final(self).active_field == old(self).active_field,
            },
    {
        match key {
            PinKey::Esc => OathPasswordNav::Cancel,
            PinKey::Enter | PinKey::Tab => {
                let is_enter = match key {
                    PinKey::Enter => true,
                    _ => false,
                };
                if is_enter && self.active_field == 2 {
                    self.submit()
                } else {
                    if self.active_field < 2 {
                        self.active_field = self.active_field + 1;
                    }
                    OathPasswordNav::Stay
                }
            },
            PinKey::Char(_) | PinKey::Backspace => {
                if self.active_field == 0 {
                    edit(&mut self.current_pw, key);
                } else if self.active_field == 1 {
                    edit(&mut self.new_pw, key);
                } else {
                    edit(&mut self.confirm_pw, key);
                }
                OathPasswordNav::Stay
            },
            _ => OathPasswordNav::Stay,
        }
    }

    /// The card's answer: done, or its error shown with the current password
    /// emptied and made active.
    pub fn on_result(&mut self, result: Result<(), String>) -> (nav: OathPasswordNav)
        requires
            old(self).wf(),
        ensures
            final(self).wf(),
            match result {
                Ok(_) => nav matches OathPasswordNav::Done { title, body } && title@ == "Password Changed"@
                    && body@ == "OATH application password has been changed."@,
                Err(e) => {
                    &&& nav is Stay
                    &&& final(self).error matches Some(m) && m@ == e@
                    &&& final(self).current_pw@.len() == 0
                    &&& final(self).active_field == 0
                },
            },
    {
        match result {
            Ok(_) => OathPasswordNav::Done {
                title: String::from_str("Password Changed"),
                body: String::from_str("OATH application password has been changed."),
            },
            Err(e) => {
                self.error = Some(e);
                self.current_pw = String::new();
                self.active_field = 0;
                OathPasswordNav::Stay
            },
        }
    }
}

/// The form that removes the password, confirmed by the current one.
#[derive(Debug)]
pub struct OathRemovePasswordScreen {
    pub current_pw: String,
    pub error: Option<String>,
}

impl OathRemovePasswordScreen {
    /// An empty form.
    pub fn new() -> (s: Self)
        ensures
            s.current_pw@.len() == 0,
            s.error is None,
    {
        OathRemovePasswordScreen { current_pw: String::new(), error: None }
    }

    /// Edits the password; enter asks to remove the password, or refuses an empty one.
    pub fn on_key(&mut self, key: PinKey) -> (nav: OathPasswordNav)
        ensures
            match key {
                PinKey::Esc => nav is Cancel && final(self).current_pw@ == old(self).current_pw@,
                PinKey::Enter => final(self).current_pw@ == old(self).current_pw@ && if old(self).current_pw@.len() == 0 {
                    nav is Stay && (final(self).error matches Some(e) && e@ == "Password required"@)
                } else {
                    nav matches OathPasswordNav::RemovePassword(p) && p@ == old(self).current_pw@
                        && final(self).error == old(self).error
                },
                _ => nav is Stay && final(self).current_pw@ == edited(old(self).current_pw@, key)
                    && final(self).error == old(self).error,
            },
    {
        match key {
            PinKey::Esc => OathPasswordNav::Cancel,
            PinKey::Enter => {
                if self.current_pw.as_str().unicode_len() == 0 {
                    self.error = Some(String::from_str("Password required"));
                    OathPasswordNav::Stay
                } else {
                    OathPasswordNav::RemovePassword(self.current_pw.clone())
                }
            },
            _ => {
                edit(&mut self.current_pw, key);
                OathPasswordNav::Stay
            },
        }
    }

    /// The card's answer: done, or its error shown with the field emptied.
    pub fn on_result(&mut self, result: Result<(), String>) -> (nav: OathPasswordNav)
        ensures
            match result {
                Ok(_) => nav matches OathPasswordNav::Done { title, body } && title@ == "Password Removed"@
                    && body@ == "OATH application password has been removed."@,
                Err(e) => nav is Stay && final(self).current_pw@.len() == 0
                    && (final(self).error matches Some(m) && m@ == e@),
            },
    {
        match result {
            Ok(_) => OathPasswordNav::Done {
                title: String::from_str("Password Removed"),
                body: String::from_str("OATH application password has been removed."),
            },
            Err(e) => {
                self.error = Some(e);
                self.current_pw = String::new();
                OathPasswordNav::Stay
            },
        }
    }
}

/// The password menu's key bindings.
#[derive(Debug, Clone, Copy, PartialEq, Eq, Structural)]
pub enum OathPasswordMenuAction {
    Back,
    SetPassword,
    ChangePassword,
    RemovePassword,
}

/// Where the password menu sends the user.
#[derive(Debug)]
pub enum OathPasswordMenuNav {
    Back,
    SetForm(OathSetPasswordScreen),
    ChangeForm(OathChangePasswordScreen),
    RemoveForm(OathRemovePasswordScreen),
}

/// The menu of the OATH password forms.
#[derive(Debug)]
pub struct OathPasswordMgmtScreen;

impl OathPasswordMgmtScreen {
    /// The menu.
    pub fn new() -> (s: Self)
        ensures
            s == OathPasswordMgmtScreen,
    {
        OathPasswordMgmtScreen
    }

    /// Opens the chosen form, empty on its first field.
    pub fn on_action(&self, action: OathPasswordMenuAction) -> (nav: OathPasswordMenuNav)
        ensures
            match action {
                OathPasswordMenuAction::Back => nav is Back,
                OathPasswordMenuAction::SetPassword => nav matches OathPasswordMenuNav::SetForm(f) && f.wf()
                    && f.new_pw@.len() == 0 && f.confirm_pw@.len() == 0 && f.active_field == 0 && f.error is None,
                OathPasswordMenuAction::ChangePassword => nav matches OathPasswordMenuNav::ChangeForm(f) && f.wf()
                    && f.current_pw@.len() == 0 && f.new_pw@.len() == 0 && f.confirm_pw@.len() == 0
                    && f.active_field == 0 && f.error is None,
                OathPasswordMenuAction::RemovePassword => nav matches OathPasswordMenuNav::RemoveForm(f)
                    && f.current_pw@.len() == 0 && f.error is None,
            },
    {
        match action {
            OathPasswordMenuAction::Back => OathPasswordMenuNav::Back,
            OathPasswordMenuAction::SetPassword => OathPasswordMenuNav::SetForm(OathSetPasswordScreen::new()),
            OathPasswordMenuAction::ChangePassword => OathPasswordMenuNav::ChangeForm(OathChangePasswordScreen::new()),
            OathPasswordMenuAction::RemovePassword => OathPasswordMenuNav::RemoveForm(OathRemovePasswordScreen::new()),
        }
    }
}

} // verus!
