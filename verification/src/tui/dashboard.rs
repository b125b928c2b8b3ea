//! The dashboard: its actions and where each navigation key leads.
use vstd::prelude::*;
use vstd::string::*;
use crate::diagnostics::Diagnostics;
use crate::model::app_state::{AppState, Screen};
use crate::model::pin_operations::string_views;
use crate::model::YubiKeyState;
use crate::text::{chars_of, decimal, is_literal, push_decimal};
use crate::tui::keys::push_line;

verus! {

/// What the dashboard asks the application to do.
#[derive(Debug, Clone, Copy, PartialEq, Eq, Structural)]
pub enum DashboardAction {
    NoAction,
    Quit,
    NavigateTo(Screen),
    OpenContextMenu,
    SwitchYubiKey,
    Refresh,
    SelectMenuItem(usize),
    CloseContextMenu,
    MenuUp,
    MenuDown,
    CycleTheme,
}

/// The dashboard with the state it shows.
#[derive(Debug)]
pub struct DashboardScreen {
    pub app_state: AppState,
    pub diagnostics: Diagnostics,
}

/// Where a dashboard action leads.
#[derive(Debug, Clone, Copy, PartialEq, Eq, Structural)]
pub enum DashboardNav {
    Keys,
    Diagnostics,
    PinManagement,
    SshWizard,
    Piv,
    Help,
    Glossary,
    /// The OATH screen, told whether a key is present.
    Oath { key_present: bool },
    /// The FIDO2 screen, told whether a key is present.
    Fido2 { key_present: bool },
    /// The OTP screen, told whether a key is present.
    Otp { key_present: bool },
    /// Detect the devices again and rebuild the dashboard.
    Refresh,
    Wizards,
    Quit,
    /// Nothing (also multi-key switching, which the application handles).
    Stay,
}

/// The navigation of a dashboard action name.
pub open spec fn dashboard_nav(action: Seq<char>, key_present: bool) -> DashboardNav {
    if action == "nav_1"@ {
        DashboardNav::Keys
    } else if action == "nav_2"@ {
        DashboardNav::Diagnostics
    } else if action == "nav_3"@ {
        DashboardNav::PinManagement
    } else if action == "nav_4"@ {
        DashboardNav::SshWizard
    } else if action == "nav_5"@ {
        DashboardNav::Piv
    } else if action == "nav_6"@ || action == "open_menu"@ {
        DashboardNav::Help
    } else if action == "glossary"@ {
        DashboardNav::Glossary
    } else if action == "nav_7"@ {
        DashboardNav::Oath { key_present }
    } else if action == "nav_8"@ {
        DashboardNav::Fido2 { key_present }
    } else if action == "nav_9"@ {
        DashboardNav::Otp { key_present }
    } else if action == "refresh"@ {
        DashboardNav::Refresh
    } else if action == "wizards"@ {
        DashboardNav::Wizards
    } else if action == "quit"@ {
        DashboardNav::Quit
    } else {
        DashboardNav::Stay
    }
}

impl DashboardScreen {
    /// The dashboard over this state.
    pub fn new(app_state: AppState, diagnostics: Diagnostics) -> (s: Self)
        ensures
            s == (DashboardScreen { app_state, diagnostics }),
    {
        DashboardScreen { app_state, diagnostics }
    }

    /// Where the named action leads (see [`dashboard_nav`]); a key is present
    /// when the selected device index names a detected device.
    pub fn on_action(&self, action: &str) -> (n: DashboardNav)
        ensures
            n == dashboard_nav(
                action@,
                self.app_state.selected_yubikey_idx < self.app_state.yubikey_states@.len(),
            ),
    {
        let key_present = self.app_state.selected_yubikey_idx < self.app_state.yubikey_states.len();
        let a = chars_of(action);
        if is_literal(&a, "nav_1") {
            DashboardNav::Keys
        } else if is_literal(&a, "nav_2") {
            DashboardNav::Diagnostics
        } else if is_literal(&a, "nav_3") {
            DashboardNav::PinManagement
        } else if is_literal(&a, "nav_4") {
            DashboardNav::SshWizard
        } else if is_literal(&a, "nav_5") {
            DashboardNav::Piv
        } else if is_literal(&a, "nav_6") || is_literal(&a, "open_menu") {
            DashboardNav::Help
        } else if is_literal(&a, "glossary") {
            DashboardNav::Glossary
        } else if is_literal(&a, "nav_7") {
            DashboardNav::Oath { key_present }
        } else if is_literal(&a, "nav_8") {
            DashboardNav::Fido2 { key_present }
        } else if is_literal(&a, "nav_9") {
            DashboardNav::Otp { key_present }
        } else if is_literal(&a, "refresh") {
            DashboardNav::Refresh
        } else if is_literal(&a, "wizards") {
            DashboardNav::Wizards
        } else if is_literal(&a, "quit") {
            DashboardNav::Quit
        } else {
            DashboardNav::Stay
        }
    }
}

/// How a PIN's counter is flagged: blocked, low at one retry or less, else fine.
pub open spec fn pin_level(blocked: bool, retries: u8) -> Seq<char> {
    if blocked {
        "BLOCKED"@
    } else if retries <= 1 {
        "LOW"@
    } else {
        "OK"@
    }
}

/// Set or not, as the dashboard's key line shows a slot.
pub open spec fn slot_mark(set: bool) -> Seq<char> {
    if set {
        "SET"@
    } else {
        "---"@
    }
}

/// The device card's lines for the selected device among `count`.
pub open spec fn device_lines(yk: YubiKeyState, idx: int, count: int) -> Seq<Seq<char>> {
    (if count > 1 {
        seq!["Key "@ + decimal((idx + 1) as nat) + "/"@ + decimal(count as nat) + " (Tab to switch)"@]
    } else {
        Seq::empty()
    }) + seq![
        yk.info.model.name() + " "@ + yk.info.form_factor.name() + " | FW "@ + yk.info.version.text() + " | SN "@
            + decimal(yk.info.serial as nat),
        "PIN "@ + decimal(yk.pin_status.user_pin_retries as nat) + "/3 ["@ + pin_level(
            yk.pin_status.user_pin_blocked,
            yk.pin_status.user_pin_retries,
        ) + "]  Admin "@ + decimal(yk.pin_status.admin_pin_retries as nat) + "/3 ["@ + pin_level(
            yk.pin_status.admin_pin_blocked,
            yk.pin_status.admin_pin_retries,
        ) + "]"@,
    ] + match yk.openpgp {
        Some(o) => seq![
            "Keys: Sign ["@ + slot_mark(o.signature_key is Some) + "]  Encrypt ["@ + slot_mark(
                o.encryption_key is Some,
            ) + "]  Auth ["@ + slot_mark(o.authentication_key is Some) + "]"@,
        ],
        None => Seq::empty(),
    }
}

/// The dashboard's status card: the selected device's lines, or the two lines
/// that ask for a device.
pub open spec fn status_card(app: AppState) -> Seq<Seq<char>> {
    if app.selected_yubikey_idx < app.yubikey_states@.len() {
        device_lines(
            app.yubikey_states@[app.selected_yubikey_idx as int],
            app.selected_yubikey_idx as int,
            app.yubikey_states@.len() as int,
        )
    } else {
        seq!["No YubiKey detected"@, "Insert your YubiKey and press R to refresh"@]
    }
}

fn pin_level_str(blocked: bool, retries: u8) -> (s: &'static str)
    ensures
        s@ == pin_level(blocked, retries),
{
    if blocked {
        "BLOCKED"
    } else if retries <= 1 {
        "LOW"
    } else {
        "OK"
    }
}

fn slot_mark_str(set: bool) -> (s: &'static str)
    ensures
        s@ == slot_mark(set),
{
    if set {
        "SET"
    } else {
        "---"
    }
}

fn device_lines_of(yk: &YubiKeyState, idx: usize, count: usize) -> (r: Vec<String>)
    requires
        idx < count,
    ensures
        string_views(r@) == device_lines(*yk, idx as int, count as int),
{
    let mut r: Vec<String> = Vec::new();
    if count > 1 {
        let mut l = String::from_str("Key ");
        push_decimal(&mut l, (idx + 1) as u64);
        l.append("/");
        push_decimal(&mut l, count as u64);
        l.append(" (Tab to switch)");
        push_line(&mut r, l);
    }
    let mut id = yk.info.model.to_string();
    id.append(" ");
    let ff = yk.info.form_factor.to_string();
    id.append(ff.as_str());
    id.append(" | FW ");
    let v = yk.info.version.to_string();
    id.append(v.as_str());
    id.append(" | SN ");
    push_decimal(&mut id, yk.info.serial as u64);
    push_line(&mut r, id);
    let p = &yk.pin_status;
    let mut pl = String::from_str("PIN ");
    push_decimal(&mut pl, p.user_pin_retries as u64);
    pl.append("/3 [");
    pl.append(pin_level_str(p.user_pin_blocked, p.user_pin_retries));
    pl.append("]  Admin ");
    push_decimal(&mut pl, p.admin_pin_retries as u64);
    pl.append("/3 [");
    pl.append(pin_level_str(p.admin_pin_blocked, p.admin_pin_retries));
    pl.append("]");
    push_line(&mut r, pl);
    match &yk.openpgp {
        Some(o) => {
            let mut k = String::from_str("Keys: Sign [");
            k.append(slot_mark_str(o.signature_key.is_some()));
            k.append("]  Encrypt [");
            k.append(slot_mark_str(o.encryption_key.is_some()));
            k.append("]  Auth [");
            k.append(slot_mark_str(o.authentication_key.is_some()));
            k.append("]");
            push_line(&mut r, k);
        },
        None => {},
    }
    assert(string_views(r@) =~= device_lines(*yk, idx as int, count as int));
    r
}

impl DashboardScreen {
    /// The lines of the status card (see [`status_card`]).
    pub fn status_lines(&self) -> (r: Vec<String>)
        ensures
            string_views(r@) == status_card(self.app_state),
    {
        let count = self.app_state.yubikey_count();
        match self.app_state.yubikey_state() {
            Some(yk) => device_lines_of(yk, self.app_state.selected_yubikey_idx, count),
            None => {
                let mut r: Vec<String> = Vec::new();
                push_line(&mut r, String::from_str("No YubiKey detected"));
                push_line(&mut r, String::from_str("Insert your YubiKey and press R to refresh"));
                assert(string_views(r@) =~= status_card(self.app_state));
                r
            },
        }
    }
}

} // verus!
