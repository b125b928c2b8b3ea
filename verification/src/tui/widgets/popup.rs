//! Modal screens: a message with a close button, and a yes/no confirmation.
use vstd::prelude::*;
use vstd::string::*;

verus! {

/// The popup's action (Escape or Enter).
#[derive(Debug, Clone, Copy, PartialEq, Eq, Structural)]
pub enum PopupAction {
    Close,
}

/// A titled message that the user closes.
#[derive(Debug)]
pub struct PopupScreen {
    pub title: String,
    pub body: String,
    /// The popup was closed.
    pub closed: bool,
}

impl PopupScreen {
    /// An open popup.
    pub fn new(title: String, body: String) -> (s: Self)
        ensures
            s.title@ == title@,
            s.body@ == body@,
            !s.closed,
    {
        PopupScreen { title, body, closed: false }
    }

    /// Closing marks the popup closed; the screen then leaves.
    pub fn on_action(&mut self, action: PopupAction)
        ensures
            final(self).closed,
            final(self).title@ == old(self).title@,
            final(self).body@ == old(self).body@,
    {
        match action {
            PopupAction::Close => {
                self.closed = true;
            },
        }
    }
}

/// The confirmation's answers (Y, or Escape and N).
#[derive(Debug, Clone, Copy, PartialEq, Eq, Structural)]
pub enum ConfirmAction {
    Confirm,
    Cancel,
}

/// A yes/no question; a destructive one is headed by a warning.
#[derive(Debug)]
pub struct ConfirmScreen {
    pub title: String,
    pub message: String,
    pub destructive: bool,
    /// The user confirmed.
    pub confirmed: bool,
}

impl ConfirmScreen {
    /// An unanswered confirmation.
    pub fn new(title: String, message: String, destructive: bool) -> (s: Self)
        ensures
            s.title@ == title@,
            s.message@ == message@,
            s.destructive == destructive,
            !s.confirmed,
    {
        ConfirmScreen { title, message, destructive, confirmed: false }
    }

    /// The header: the title, after `WARNING: ` where the action is destructive.
    pub fn header_text(&self) -> (s: String)
        ensures
            s@ == if self.destructive {
                "WARNING: "@ + self.title@
            } else {
                self.title@
            },
    {
        if self.destructive {
            let mut s = String::from_str("WARNING: ");
            s.append(self.title.as_str());
            s
        } else {
            self.title.clone()
        }
    }

    /// Either answer closes the screen; it records whether the user confirmed.
    pub fn on_action(&mut self, action: ConfirmAction)
        ensures
            final(self).confirmed == (action == ConfirmAction::Confirm),
            final(self).title@ == old(self).title@,
            final(self).message@ == old(self).message@,
            final(self).destructive == old(self).destructive,
    {
        match action {
            ConfirmAction::Confirm => {
                self.confirmed = true;
            },
            ConfirmAction::Cancel => {
                self.confirmed = false;
            },
        }
    }
}

} // verus!
