//! The theme entry of the configuration file (`config.toml`).
use vstd::prelude::*;
use vstd::string::*;
use crate::model::otp::opt_str;

verus! {

/// The string under the `theme` key of the TOML document `content`, where the
/// document parses and that entry is a string.
pub uninterp spec fn toml_theme(content: Seq<char>) -> Option<Seq<char>>;

/// A character that a TOML basic string holds as it is, without an escape: any
/// but the quotation mark, the backslash and the control characters other than tab.
pub open spec fn toml_plain_char(c: char) -> bool {
    c != '"' && c != '\\' && c != '\x7f' && (c == '\t' || (c as u32) >= 0x20)
}

/// The configuration file that holds only the theme `name`.
pub open spec fn theme_doc(name: Seq<char>) -> Seq<char> {
    "theme = \""@ + name + "\"\n"@
}

/// `toml::from_str::<toml::Value>` on the file's text, then `get("theme")` and
/// `as_str` on the value. The result is named; for the one-line file that
/// [`theme_config_text`] writes, with a name that needs no escape, the TOML
/// grammar gives the name back, and that is stated too.
#[verifier::external_body]
fn parse_theme_entry(content: &str) -> (r: Option<String>)
    ensures
        opt_str(r) == toml_theme(content@),
        forall|n: Seq<char>|
            #[trigger] theme_doc(n) == content@ && (forall|i: int| 0 <= i < n.len() ==> toml_plain_char(n[i]))
                ==> opt_str(r) == Some(n),
{
    let value: toml::Value = toml::from_str(content).ok()?;
    value.get("theme")?.as_str().map(String::from)
}

/// The theme named in the configuration file's text.
pub fn read_theme_name(content: &str) -> (r: Option<String>)
    ensures
        opt_str(r) == toml_theme(content@),
        forall|n: Seq<char>|
            #[trigger] theme_doc(n) == content@ && (forall|i: int| 0 <= i < n.len() ==> toml_plain_char(n[i]))
                ==> opt_str(r) == Some(n),
{
    parse_theme_entry(content)
}

/// The text of the configuration file that saves the theme `name`.
pub fn theme_config_text(name: &str) -> (s: String)
    ensures
        s@ == theme_doc(name@),
{
    let mut s = String::from_str("theme = \"");
    s.append(name);
    s.append("\"\n");
    s
}

} // verus!
