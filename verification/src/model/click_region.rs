//! Mouse hit regions of the screen and what a click in them does.
use vstd::prelude::*;
use crate::tui::dashboard::DashboardAction;
use crate::tui::keys::KeyAction;

verus! {

/// A rectangle of terminal cells.
#[derive(Debug, Clone, Copy, PartialEq, Eq, Structural)]
pub struct Region {
    pub x: u16,
    pub y: u16,
    pub w: u16,
    pub h: u16,
}

/// `a + b`, or `u16::MAX` where that overflows.
pub open spec fn sat_add(a: u16, b: u16) -> int {
    if a + b > u16::MAX {
        u16::MAX as int
    } else {
        a + b
    }
}

impl Region {
    /// The cell lies in the region; the far edges saturate at `u16::MAX`.
    pub fn contains(&self, col: u16, row: u16) -> (b: bool)
        ensures
            b == (col >= self.x && col < sat_add(self.x, self.w) && row >= self.y && row < sat_add(
                self.y,
                self.h,
            )),
    {
        col >= self.x && col < self.x.saturating_add(self.w) && row >= self.y && row
            < self.y.saturating_add(self.h)
    }
}

/// What a click does, by screen.
#[derive(Debug)]
pub enum ClickAction {
    Dashboard(DashboardAction),
    Keys(KeyAction),
}

/// A region and what clicking it does.
#[derive(Debug)]
pub struct ClickRegion {
    pub region: Region,
    pub action: ClickAction,
}

} // verus!
