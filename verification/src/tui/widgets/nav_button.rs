//! A button that names the action it stands for, so that a parent with several
//! buttons can tell which one was pressed.
use vstd::prelude::*;

verus! {

/// Sent when a [`NavButton`] is pressed: the button's action.
#[derive(Debug)]
pub struct Activated {
    pub action: String,
}

/// A labelled button bound to an action name.
#[derive(Debug)]
pub struct NavButton {
    pub label: String,
    pub action: String,
}

impl NavButton {
    /// A button with its label and action.
    pub fn new(label: String, action: String) -> (b: Self)
        ensures
            b.label@ == label@,
            b.action@ == action@,
    {
        NavButton { label, action }
    }

    /// A press sends the button's action.
    pub fn on_pressed(&self) -> (m: Activated)
        ensures
            m.action@ == self.action@,
    {
        Activated { action: self.action.clone() }
    }
}

} // verus!
