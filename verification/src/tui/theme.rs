//! Theme names and cycling through them.
use vstd::prelude::*;
use crate::text::{chars_of, is_literal};

verus! {

/// The built-in themes, in cycling order.
pub open spec fn theme_names() -> Seq<Seq<char>> {
    seq!["tokyo-night"@, "nord"@, "gruvbox-dark"@, "dracula"@, "catppuccin-mocha"@]
}

/// The theme used when none is configured.
pub const DEFAULT_THEME: &'static str = "tokyo-night";

/// The position of the first theme with this name, 0 when there is none.
pub open spec fn theme_index(name: Seq<char>) -> int {
    if name == theme_names()[0] {
        0
    } else if name == theme_names()[1] {
        1
    } else if name == theme_names()[2] {
        2
    } else if name == theme_names()[3] {
        3
    } else if name == theme_names()[4] {
        4
    } else {
        0
    }
}

/// The theme after `current` in cycling order (after an unknown name, the
/// second one).
pub fn next_theme_name(current: &str) -> (s: &'static str)
    ensures
        s@ == theme_names()[(theme_index(current@) + 1) % 5],
{
    let c = chars_of(current);
    let idx: usize = if is_literal(&c, "tokyo-night") {
        0
    } else if is_literal(&c, "nord") {
        1
    } else if is_literal(&c, "gruvbox-dark") {
        2
    } else if is_literal(&c, "dracula") {
        3
    } else if is_literal(&c, "catppuccin-mocha") {
        4
    } else {
        0
    };
    match (idx + 1) % 5 {
        0 => "tokyo-night",
        1 => "nord",
        2 => "gruvbox-dark",
        3 => "dracula",
        _ => "catppuccin-mocha",
    }
}

/// Cycling through the themes comes back to a known theme after five steps.
pub proof fn lemma_theme_cycle(i: int)
    requires
        0 <= i < 5,
    ensures
        theme_index(theme_names()[i]) == i,
        theme_index(theme_names()[(i + 1) % 5]) == (i + 1) % 5,
{
    reveal_strlit("tokyo-night");
    reveal_strlit("nord");
    reveal_strlit("gruvbox-dark");
    reveal_strlit("dracula");
    reveal_strlit("catppuccin-mocha");
    assert(theme_names()[0][0] == 't' && theme_names()[1][0] == 'n' && theme_names()[2][0] == 'g'
        && theme_names()[3][0] == 'd' && theme_names()[4][0] == 'c');
}

} // verus!
