//! The setup wizards: the menu that launches them, the initial setup walk
//! through FIDO2, OATH and PIV, and the SSH key wizard with its touch policy.
use vstd::prelude::*;
use vstd::string::*;
use crate::model::YubiKeyState;
use crate::text::{decimal, push_char, push_decimal, zero_padded};
use crate::tui::keys::{push_line, KeyGenWizard};
use crate::model::pin_operations::string_views;
use crate::clock::unix_now_secs;
use crate::tui::piv::{find_slot, find_slot_index, listed_slots};

verus! {

/// Touch policies offered for an SSH key.
#[derive(Debug, Clone, Copy, PartialEq, Eq, Structural)]
pub enum TouchPolicy {
    Never,
    Always,
    Cached,
}

impl TouchPolicy {
    /// The one-line label of the choice.
    pub open spec fn label_text(self) -> Seq<char> {
        match self {
            TouchPolicy::Never => "No touch required"@,
            TouchPolicy::Always => "Touch required for every use"@,
            TouchPolicy::Cached => "Touch required (cached for 15 s)"@,
        }
    }

    /// The plain-language explanation of the choice.
    pub open spec fn description_text(self) -> Seq<char> {
        match self {
            TouchPolicy::Never => "The key signs without any physical confirmation.\nUse this if you want seamless SSH logins but accept that\nany process running as you can use the key without warning."@,
            TouchPolicy::Always => "You must physically touch the YubiKey for every SSH operation.\nThis prevents silent use — if you did not initiate a login,\nyou will notice the LED blinking and can refuse."@,
            TouchPolicy::Cached => "Touch required once per 15-second window.\nBalances security (physical confirmation) with convenience\n(scripts/agents can reuse the key briefly without repeated touch)."@,
        }
    }

    /// The label of the choice.
    pub fn label(self) -> (s: &'static str)
        ensures
            s@ == self.label_text(),
    {
        match self {
            TouchPolicy::Never => "No touch required",
            TouchPolicy::Always => "Touch required for every use",
            TouchPolicy::Cached => "Touch required (cached for 15 s)",
        }
    }

    /// The explanation of the choice.
    pub fn description(self) -> (s: &'static str)
        ensures
            s@ == self.description_text(),
    {
        match self {
            TouchPolicy::Never => "The key signs without any physical confirmation.\nUse this if you want seamless SSH logins but accept that\nany process running as you can use the key without warning.",
            TouchPolicy::Always => "You must physically touch the YubiKey for every SSH operation.\nThis prevents silent use — if you did not initiate a login,\nyou will notice the LED blinking and can refuse.",
            TouchPolicy::Cached => "Touch required once per 15-second window.\nBalances security (physical confirmation) with convenience\n(scripts/agents can reuse the key briefly without repeated touch).",
        }
    }
}


/// `[##--] Step 2/4`: `total` marks, the first `current` of them filled.
pub open spec fn progress_text(current: nat, total: nat) -> Seq<char> {
    "["@ + Seq::new(total, |i: int| if i < current { '#' } else { '-' }) + "] Step "@
        + decimal(current) + "/"@ + decimal(total)
}

/// The progress line of a wizard.
pub fn progress_bar(current: usize, total: usize) -> (s: String)
    ensures
        s@ == progress_text(current as nat, total as nat),
{
    let mut s = String::from_str("[");
    let mut i: usize = 0;
    while i < total
        invariant
            i <= total,
            s@ == "["@ + Seq::new(i as nat, |k: int| if k < current { '#' } else { '-' }),
        decreases total - i,
    {
        if i < current {
            push_char(&mut s, '#');
        } else {
            push_char(&mut s, '-');
        }
        i = i + 1;
        assert(s@ =~= "["@ + Seq::new(i as nat, |k: int| if k < current { '#' } else { '-' }));
    }
    s.append("] Step ");
    push_decimal(&mut s, current as u64);
    push_char(&mut s, '/');
    push_decimal(&mut s, total as u64);
    proof {
        reveal_strlit("[");
        reveal_strlit("/");
    }
    assert(s@ =~= progress_text(current as nat, total as nat));
    s
}

/// The wizard menu's actions.
#[derive(Debug, Clone, Copy, PartialEq, Eq, Structural)]
pub enum WizardMenuAction {
    Back,
    InitialSetup,
    SshWizard,
    TouchPolicy,
}

/// Where the wizard menu leads.
#[derive(Debug, Clone, Copy, PartialEq, Eq, Structural)]
pub enum WizardMenuNav {
    Close,
    /// Open the initial setup wizard on the menu's device.
    InitialSetup,
    /// Open the SSH key wizard on the menu's device.
    SshWizard,
    /// Open the OpenPGP touch policy screen on the menu's device.
    TouchPolicy,
}

/// The launch pad of the wizards.
#[derive(Debug)]
pub struct WizardMenuScreen {
    pub yubikey_state: Option<YubiKeyState>,
}

impl WizardMenuScreen {
    /// The menu for a device, if one is present.
    pub fn new(yubikey_state: Option<YubiKeyState>) -> (s: Self)
        ensures
            s.yubikey_state == yubikey_state,
    {
        WizardMenuScreen { yubikey_state }
    }

    /// Back closes the menu; each other action opens its wizard.
    pub fn on_action(&self, action: WizardMenuAction) -> (nav: WizardMenuNav)
        ensures
            nav == match action {
                WizardMenuAction::Back => WizardMenuNav::Close,
                WizardMenuAction::InitialSetup => WizardMenuNav::InitialSetup,
                WizardMenuAction::SshWizard => WizardMenuNav::SshWizard,
                WizardMenuAction::TouchPolicy => WizardMenuNav::TouchPolicy,
            },
    {
        match action {
            WizardMenuAction::Back => WizardMenuNav::Close,
            WizardMenuAction::InitialSetup => WizardMenuNav::InitialSetup,
            WizardMenuAction::SshWizard => WizardMenuNav::SshWizard,
            WizardMenuAction::TouchPolicy => WizardMenuNav::TouchPolicy,
        }
    }
}

/// The number of steps of the initial setup: welcome, FIDO2 PIN, OATH account,
/// PIV/SSH key and done.
pub const INITIAL_SETUP_STEPS: usize = 5;

/// The initial setup wizard's actions.
#[derive(Debug, Clone, Copy, PartialEq, Eq, Structural)]
pub enum SetupAction {
    Back,
    Cancel,
    Next,
    Skip,
    Prev,
    /// Open the screen of the current step.
    Open,
}

/// Where the initial setup wizard leads.
#[derive(Debug, Clone, Copy, PartialEq, Eq, Structural)]
pub enum SetupNav {
    Stay,
    Close,
    /// Open the FIDO2 screen on the device's FIDO2 state.
    OpenFido2,
    /// Open the OATH screen on the device's OATH state.
    OpenOath,
    /// Open the SSH key wizard on the device.
    OpenSshWizard,
}

/// The step and navigation after an action of the initial setup wizard.
pub open spec fn setup_after(step: nat, action: SetupAction) -> (nat, SetupNav) {
    match action {
        SetupAction::Back | SetupAction::Cancel => (step, SetupNav::Close),
        SetupAction::Next | SetupAction::Skip => if step + 1 >= INITIAL_SETUP_STEPS {
            (step, SetupNav::Close)
        } else {
            (step + 1, SetupNav::Stay)
        },
        SetupAction::Prev => if step > 0 {
            ((step - 1) as nat, SetupNav::Stay)
        } else {
            (step, SetupNav::Stay)
        },
        SetupAction::Open => (
            step,
            if step == 1 {
                SetupNav::OpenFido2
            } else if step == 2 {
                SetupNav::OpenOath
            } else if step == 3 {
                SetupNav::OpenSshWizard
            } else {
                SetupNav::Stay
            },
        ),
    }
}

/// What a step of the initial setup shows of the device.
#[derive(Debug, Clone, Copy, PartialEq, Eq, Structural)]
pub struct SetupSummary {
    /// Whether a FIDO2 PIN is set; `None` where the FIDO2 state is unknown.
    pub pin_state: Option<bool>,
    /// The number of OATH credentials (0 where unknown).
    pub credential_count: usize,
    /// The OATH applet is password protected.
    pub password_required: bool,
    /// PIV slot 9a holds something.
    pub slot_9a_occupied: bool,
}

/// The device facts that the initial setup shows.
pub open spec fn setup_summary(yk: Option<YubiKeyState>) -> SetupSummary {
    SetupSummary {
        pin_state: match yk {
            Some(y) => match y.fido2 {
                Some(f) => Some(f.pin_is_set),
                None => None,
            },
            None => None,
        },
        credential_count: match yk {
            Some(y) => match y.oath {
                Some(o) => o.credentials@.len() as usize,
                None => 0usize,
            },
            None => 0usize,
        },
        password_required: match yk {
            Some(y) => match y.oath {
                Some(o) => o.password_required,
                None => false,
            },
            None => false,
        },
        slot_9a_occupied: find_slot(listed_slots(yk), "9a"@) is Some,
    }
}

/// The initial setup wizard: a walk through the device's FIDO2 PIN, OATH
/// accounts and PIV/SSH key, each step skippable.
#[derive(Debug)]
pub struct InitialSetupWizardScreen {
    pub yubikey_state: Option<YubiKeyState>,
    /// The current step, 0 (welcome) to 4 (done).
    pub step: usize,
}

impl InitialSetupWizardScreen {
    /// The wizard at its welcome step.
    pub fn new(yubikey_state: Option<YubiKeyState>) -> (s: Self)
        ensures
            s.yubikey_state == yubikey_state,
            s.step == 0,
    {
        InitialSetupWizardScreen { yubikey_state, step: 0 }
    }

    /// The progress line of the current step.
    pub fn progress(&self) -> (s: String)
        ensures
            s@ == progress_text(self.step as nat, (INITIAL_SETUP_STEPS - 1) as nat),
    {
        progress_bar(self.step, INITIAL_SETUP_STEPS - 1)
    }

    /// Back and cancel close the wizard; next and skip advance, closing it
    /// from the last step; prev goes back a step; open opens the screen of the
    /// FIDO2, OATH or PIV/SSH step.
    pub fn on_action(&mut self, action: SetupAction) -> (nav: SetupNav)
        ensures
            (final(self).step as nat, nav) == setup_after(old(self).step as nat, action),
            final(self).yubikey_state == old(self).yubikey_state,
    {
        match action {
            SetupAction::Back | SetupAction::Cancel => SetupNav::Close,
            SetupAction::Next | SetupAction::Skip => {
                if self.step >= INITIAL_SETUP_STEPS - 1 {
                    SetupNav::Close
                } else {
                    self.step = self.step + 1;
                    SetupNav::Stay
                }
            },
            SetupAction::Prev => {
                if self.step > 0 {
                    self.step = self.step - 1;
                }
                SetupNav::Stay
            },
            SetupAction::Open => {
                if self.step == 1 {
                    SetupNav::OpenFido2
                } else if self.step == 2 {
                    SetupNav::OpenOath
                } else if self.step == 3 {
                    SetupNav::OpenSshWizard
                } else {
                    SetupNav::Stay
                }
            },
        }
    }

    /// What the steps show of the device.
    pub fn summary(&self) -> (s: SetupSummary)
        ensures
            s == setup_summary(self.yubikey_state),
    {
        let pin_state = match &self.yubikey_state {
            Some(y) => match &y.fido2 {
                Some(f) => Some(f.pin_is_set),
                None => None,
            },
            None => None,
        };
        let (credential_count, password_required) = match &self.yubikey_state {
            Some(y) => match &y.oath {
                Some(o) => (o.credentials.len(), o.password_required),
                None => (0, false),
            },
            None => (0, false),
        };
        let slot_9a_occupied = match &self.yubikey_state {
            Some(y) => match &y.piv {
                Some(p) => find_slot_index(&p.slots, "9a").is_some(),
                None => false,
            },
            None => false,
        };
        proof {
            reveal_strlit("9a");
        }
        SetupSummary { pin_state, credential_count, password_required, slot_9a_occupied }
    }
}

/// The device lines of the welcome step.
pub open spec fn welcome_device_lines(yk: Option<YubiKeyState>) -> Seq<Seq<char>> {
    match yk {
        Some(y) => seq![
            "Device: "@ + y.info.model.name() + " (SN "@ + decimal(y.info.serial as nat) + ")"@,
            "Firmware: "@ + y.info.version.text(),
        ],
        None => seq!["No YubiKey detected. Insert your key and restart."@],
    }
}

/// The text of each step of the initial setup (under its header and progress
/// line): the device, then the FIDO2 PIN, the OATH accounts and PIV slot 9a as
/// the summary gives them, then the closing summary.
pub open spec fn setup_step_text(step: nat, yk: Option<YubiKeyState>) -> Seq<Seq<char>> {
    let sm = setup_summary(yk);
    if step == 0 {
        seq!["Welcome to the Initial YubiKey Setup Wizard."@] + welcome_device_lines(yk) + seq![
            ""@,
            "This wizard will guide you through:"@,
            "  1. Setting a FIDO2 PIN"@,
            "  2. Adding your first OATH account"@,
            "  3. Configuring a PIV or SSH key"@,
            ""@,
            "Press Enter to begin, or Esc to exit."@,
        ]
    } else if step == 1 {
        seq!["Step 1: FIDO2 PIN"@] + match sm.pin_state {
            Some(true) => seq!["✓ FIDO2 PIN is SET."@, "Your key is protected."@],
            Some(false) => seq![
                "○ FIDO2 PIN is NOT SET."@,
                "Anyone with physical access can use your key."@,
                "Press O to set a PIN."@,
            ],
            None => seq!["? FIDO2 state unavailable."@, "Press O to open the FIDO2 screen."@],
        } + seq![""@, "Enter/S to continue."@]
    } else if step == 2 {
        seq![
            "Step 2: OATH Authenticator"@,
            decimal(sm.credential_count as nat) + " OATH credential(s) on this YubiKey."@,
        ] + (if sm.password_required { seq!["Note: OATH applet is password-protected."@] } else { Seq::empty() })
            + seq![
            if sm.credential_count == 0 {
                "Press O to add your first TOTP account."@
            } else {
                "OATH credentials already configured."@
            },
            ""@,
            "Enter/S to continue."@,
        ]
    } else if step == 3 {
        seq![
            "Step 3: PIV / SSH Key"@,
            "PIV slot 9a: "@ + if sm.slot_9a_occupied { "OCCUPIED"@ } else { "EMPTY"@ },
            if sm.slot_9a_occupied {
                "PIV/SSH already configured. Press O for PIV screen."@
            } else {
                "Press O to open the SSH Setup wizard."@
            },
            ""@,
            "Enter/S to continue."@,
        ]
    } else {
        seq!["Setup Complete!"@, ""@, "Your YubiKey is configured:"@] + (if yk is Some {
            seq![
                "  FIDO2 PIN:     "@ + if sm.pin_state == Some(true) { "Set"@ } else { "Not set"@ },
                "  OATH accounts: "@ + decimal(sm.credential_count as nat),
                "  PIV slot 9a:   "@ + if sm.slot_9a_occupied { "Configured"@ } else { "Empty"@ },
            ]
        } else {
            Seq::empty()
        }) + seq![""@, "Press Esc to return to the dashboard."@]
    }
}

fn push_strs(v: &mut Vec<String>, lines: &[&str])
    ensures
        string_views(final(v)@) == string_views(old(v)@) + Seq::new(lines@.len(), |i: int| lines@[i]@),
{
    let mut i: usize = 0;
    while i < lines.len()
        invariant
            i <= lines@.len(),
            string_views(v@) == string_views(old(v)@) + Seq::new(i as nat, |k: int| lines@[k]@),
        decreases lines@.len() - i,
    {
        push_line(v, String::from_str(lines[i]));
        i = i + 1;
        assert(string_views(v@) =~= string_views(old(v)@) + Seq::new(i as nat, |k: int| lines@[k]@));
    }
}

impl InitialSetupWizardScreen {
    /// The text of the current step (see [`setup_step_text`]).
    pub fn step_lines(&self) -> (v: Vec<String>)
        ensures
            string_views(v@) == setup_step_text(self.step as nat, self.yubikey_state),
    {
        let sm = self.summary();
        let mut v: Vec<String> = Vec::new();
        if self.step == 0 {
            push_line(&mut v, String::from_str("Welcome to the Initial YubiKey Setup Wizard."));
            match &self.yubikey_state {
                Some(y) => {
                    let mut d = String::from_str("Device: ");
                    let m = y.info.model.to_string();
                    d.append(m.as_str());
                    d.append(" (SN ");
                    push_decimal(&mut d, y.info.serial as u64);
                    d.append(")");
                    push_line(&mut v, d);
                    let mut f = String::from_str("Firmware: ");
                    let t = y.info.version.to_string();
                    f.append(t.as_str());
                    push_line(&mut v, f);
                },
                None => push_line(&mut v, String::from_str("No YubiKey detected. Insert your key and restart.")),
            }
            push_strs(&mut v, &[
                "",
                "This wizard will guide you through:",
                "  1. Setting a FIDO2 PIN",
                "  2. Adding your first OATH account",
                "  3. Configuring a PIV or SSH key",
                "",
                "Press Enter to begin, or Esc to exit.",
            ]);
        } else if self.step == 1 {
            push_line(&mut v, String::from_str("Step 1: FIDO2 PIN"));
            match sm.pin_state {
                Some(true) => push_strs(&mut v, &["✓ FIDO2 PIN is SET.", "Your key is protected."]),
                Some(false) => push_strs(&mut v, &[
                    "○ FIDO2 PIN is NOT SET.",
                    "Anyone with physical access can use your key.",
                    "Press O to set a PIN.",
                ]),
                None => push_strs(&mut v, &["? FIDO2 state unavailable.", "Press O to open the FIDO2 screen."]),
            }
            push_strs(&mut v, &["", "Enter/S to continue."]);
        } else if self.step == 2 {
            push_line(&mut v, String::from_str("Step 2: OATH Authenticator"));
            let mut c = String::new();
            push_decimal(&mut c, sm.credential_count as u64);
            c.append(" OATH credential(s) on this YubiKey.");
            push_line(&mut v, c);
            if sm.password_required {
                push_line(&mut v, String::from_str("Note: OATH applet is password-protected."));
            }
            push_line(&mut v, String::from_str(if sm.credential_count == 0 {
                "Press O to add your first TOTP account."
            } else {
                "OATH credentials already configured."
            }));
            push_strs(&mut v, &["", "Enter/S to continue."]);
        } else if self.step == 3 {
            push_line(&mut v, String::from_str("Step 3: PIV / SSH Key"));
            let mut p = String::from_str("PIV slot 9a: ");
            p.append(if sm.slot_9a_occupied { "OCCUPIED" } else { "EMPTY" });
            push_line(&mut v, p);
            push_line(&mut v, String::from_str(if sm.slot_9a_occupied {
                "PIV/SSH already configured. Press O for PIV screen."
            } else {
                "Press O to open the SSH Setup wizard."
            }));
            push_strs(&mut v, &["", "Enter/S to continue."]);
        } else {
            push_strs(&mut v, &["Setup Complete!", "", "Your YubiKey is configured:"]);
            if self.yubikey_state.is_some() {
                let mut a = String::from_str("  FIDO2 PIN:     ");
                a.append(if sm.pin_state == Some(true) { "Set" } else { "Not set" });
                push_line(&mut v, a);
                let mut b = String::from_str("  OATH accounts: ");
                push_decimal(&mut b, sm.credential_count as u64);
                push_line(&mut v, b);
                let mut c = String::from_str("  PIV slot 9a:   ");
                c.append(if sm.slot_9a_occupied { "Configured" } else { "Empty" });
                push_line(&mut v, c);
            }
            push_strs(&mut v, &["", "Press Esc to return to the dashboard."]);
        }
        assert(string_views(v@) =~= setup_step_text(self.step as nat, self.yubikey_state));
        v
    }
}

/// Going forward a step and back again returns to the same step, short of the
/// last step (from which going forward closes the wizard).
pub proof fn lemma_setup_next_then_prev(step: nat)
    requires
        step + 1 < INITIAL_SETUP_STEPS,
    ensures
        setup_after(setup_after(step, SetupAction::Next).0, SetupAction::Prev).0 == step,
        setup_after(step, SetupAction::Next).1 == SetupNav::Stay,
{
}

/// The number of steps of the SSH key wizard: policy, slot overview, launch.
pub const SSH_WIZARD_STEPS: usize = 3;

/// The touch policy at a position of the wizard's list.
pub open spec fn policy_at(i: nat) -> TouchPolicy {
    if i == 0 {
        TouchPolicy::Never
    } else if i == 1 {
        TouchPolicy::Always
    } else {
        TouchPolicy::Cached
    }
}

/// The SSH key wizard's actions.
#[derive(Debug, Clone, Copy, PartialEq, Eq, Structural)]
pub enum SshKeyWizardAction {
    Back,
    Next,
    PolicyUp,
    PolicyDown,
}

/// The file name stem of a backup made on the given date.
pub open spec fn dated_backup_path(date: Seq<char>) -> Seq<char> {
    "~/yubikey-backup-"@ + date + ".gpg"@
}

/// Where the SSH key wizard leads.
#[derive(Debug)]
pub enum SshKeyWizardNav {
    Stay,
    Close,
    /// Open the key generation wizard.
    LaunchKeyGen(KeyGenWizard),
}

/// The proleptic Gregorian date (year, month, day) of a day count since
/// 1970-01-01 (negative before it; years before 1 CE counted astronomically).
pub open spec fn civil_from_days(days: int) -> (int, int, int) {
    let z = days + 719468;
    let era = z / 146097;
    let doe = z - era * 146097;
    let yoe = (doe - doe / 1460 + doe / 36524 - doe / 146096) / 365;
    let doy = doe - (365 * yoe + yoe / 4 - yoe / 100);
    let mp = (5 * doy + 2) / 153;
    let d = doy - (153 * mp + 2) / 5 + 1;
    let m = if mp < 10 { mp + 3 } else { mp - 9 };
    let y = yoe + era * 400 + if m <= 2 { 1int } else { 0int };
    (y, m, d)
}

/// A year as chrono's `%Y` writes it: four digits, zero-padded, for the years 0
/// to 9999; otherwise a sign and at least four digits.
pub open spec fn year_text(y: int) -> Seq<char> {
    if 0 <= y <= 9999 {
        zero_padded(y as nat, 4)
    } else if y > 9999 {
        seq!['+'] + zero_padded(y as nat, 4)
    } else {
        seq!['-'] + zero_padded((-y) as nat, 4)
    }
}

/// `%Y-%m-%d` of the UTC day of a Unix time.
pub open spec fn date_text(secs: int) -> Seq<char> {
    let (y, m, d) = civil_from_days(secs / 86400);
    year_text(y) + "-"@ + zero_padded(m as nat, 2) + "-"@ + zero_padded(d as nat, 2)
}

/// The Unix times that chrono has a date for: from the first second of
/// 262144 BCE (`NaiveDate::MIN`, the year -262143) to the last of 262142 CE
/// (`NaiveDate::MAX`).
pub open spec fn chrono_range(secs: int) -> bool {
    -8334601228800 <= secs <= 8210266876799
}

/// `chrono::DateTime::from_timestamp(secs, 0)`, formatted with `%Y-%m-%d`: the
/// UTC date of a Unix time, `None` where it falls outside chrono's dates. The
/// date is the proleptic Gregorian day of [`date_text`], with the year written
/// as chrono's `%Y` writes it.
#[verifier::external_body]
fn utc_date(secs: i64) -> (r: Option<String>)
    ensures
        match r {
            Some(d) => chrono_range(secs as int) && d@ == date_text(secs as int),
            None => !chrono_range(secs as int),
        },
{
    match chrono::DateTime::from_timestamp(secs, 0) {
        Some(d) => Some(d.format("%Y-%m-%d").to_string()),
        None => None,
    }
}

/// The UTC date of a Unix time as `%Y-%m-%d` (see [`date_text`]), or `today`
/// where chrono has no date for it.
pub fn date_of_unix_secs(secs: i64) -> (s: String)
    ensures
        s@ == if chrono_range(secs as int) {
            date_text(secs as int)
        } else {
            "today"@
        },
{
    match utc_date(secs) {
        Some(d) => d,
        None => String::from_str("today"),
    }
}

/// Today's date (UTC); the value is the clock's.
fn today_date() -> String {
    date_of_unix_secs(unix_now_secs())
}

/// The SSH key wizard: choose a touch policy, review slot 9a, then launch key
/// generation.
#[derive(Debug)]
pub struct SshTouchPolicyWizardScreen {
    pub yubikey_state: Option<YubiKeyState>,
    /// The current step, 0 to 2.
    pub step: usize,
    /// The chosen policy's position: 0 never, 1 always, 2 cached.
    pub policy_idx: usize,
}

impl SshTouchPolicyWizardScreen {
    /// The wizard at its first step, with "always" chosen.
    pub fn new(yubikey_state: Option<YubiKeyState>) -> (s: Self)
        ensures
            s.yubikey_state == yubikey_state,
            s.step == 0,
            s.policy_idx == 1,
    {
        SshTouchPolicyWizardScreen { yubikey_state, step: 0, policy_idx: 1 }
    }

    /// The progress line of the current step.
    pub fn progress(&self) -> (s: String)
        ensures
            s@ == progress_text(self.step as nat, SSH_WIZARD_STEPS as nat),
    {
        progress_bar(self.step, SSH_WIZARD_STEPS)
    }

    /// The chosen touch policy.
    pub fn policy(&self) -> (p: TouchPolicy)
        requires
            self.policy_idx < 3,
        ensures
            p == policy_at(self.policy_idx as nat),
    {
        if self.policy_idx == 0 {
            TouchPolicy::Never
        } else if self.policy_idx == 1 {
            TouchPolicy::Always
        } else {
            TouchPolicy::Cached
        }
    }

    /// The position of slot 9a among the device's PIV slots, if it holds something.
    pub fn slot_9a_index(&self) -> (r: Option<usize>)
        ensures
            match r {
                Some(i) => self.yubikey_state matches Some(y) && y.piv matches Some(p) && i
                    < p.slots@.len() && find_slot(listed_slots(self.yubikey_state), "9a"@)
                    == Some(p.slots@[i as int]@),
                None => find_slot(listed_slots(self.yubikey_state), "9a"@) is None,
            },
    {
        proof {
            reveal_strlit("9a");
        }
        match &self.yubikey_state {
            Some(y) => match &y.piv {
                Some(p) => find_slot_index(&p.slots, "9a"),
                None => None,
            },
            None => None,
        }
    }

    /// Back returns a step, closing from the first; next advances, and on the
    /// last step opens key generation with a backup named after today's (UTC) date;
    /// up and down move the policy choice within the list, on the first step only.
    pub fn on_action(&mut self, action: SshKeyWizardAction) -> (nav: SshKeyWizardNav)
        requires
            old(self).policy_idx < 3,
        ensures
            final(self).policy_idx < 3,
            final(self).yubikey_state == old(self).yubikey_state,
            match action {
                SshKeyWizardAction::Back => final(self).policy_idx == old(self).policy_idx && if old(
                    self,
                ).step == 0 {
                    nav is Close && final(self).step == 0
                } else {
                    nav is Stay && final(self).step == old(self).step - 1
                },
                SshKeyWizardAction::Next => final(self).policy_idx == old(self).policy_idx && if old(
                    self,
                ).step + 1 >= SSH_WIZARD_STEPS {
                    &&& final(self).step == old(self).step
                    &&& nav matches SshKeyWizardNav::LaunchKeyGen(w)
                    &&& w.step == crate::tui::keys::KeyGenStep::Algorithm
                    &&& w.algorithm_index == 0 && w.expiry_index == 0 && w.active_field == 0
                    &&& w.custom_expiry@.len() == 0 && w.name@.len() == 0 && w.email@.len() == 0
                    &&& !w.backup && !w.editing_path && !w.editing_custom_expiry
                    &&& exists|d: Seq<char>| w.backup_path@ == #[trigger] dated_backup_path(d)
                } else {
                    nav is Stay && final(self).step == old(self).step + 1
                },
                SshKeyWizardAction::PolicyUp => nav is Stay && final(self).step == old(self).step
                    && final(self).policy_idx == if old(self).policy_idx > 0 && old(self).step
                    == 0 {
                    (old(self).policy_idx - 1) as usize
                } else {
                    old(self).policy_idx
                },
                SshKeyWizardAction::PolicyDown => nav is Stay && final(self).step == old(self).step
                    && final(self).policy_idx == if old(self).policy_idx + 1 < 3 && old(self).step
                    == 0 {
                    (old(self).policy_idx + 1) as usize
                } else {
                    old(self).policy_idx
                },
            },
    {
        match action {
            SshKeyWizardAction::Back => {
                if self.step == 0 {
                    SshKeyWizardNav::Close
                } else {
                    self.step = self.step - 1;
                    SshKeyWizardNav::Stay
                }
            },
            SshKeyWizardAction::Next => {
                if self.step >= SSH_WIZARD_STEPS - 1 {
                    let today = today_date();
                    let w = KeyGenWizard::new(today.as_str());
                    assert(w.backup_path@ == dated_backup_path(today@));
                    SshKeyWizardNav::LaunchKeyGen(w)
                } else {
                    self.step = self.step + 1;
                    SshKeyWizardNav::Stay
                }
            },
            SshKeyWizardAction::PolicyUp => {
                if self.policy_idx > 0 && self.step == 0 {
                    self.policy_idx = self.policy_idx - 1;
                }
                SshKeyWizardNav::Stay
            },
            SshKeyWizardAction::PolicyDown => {
                if self.policy_idx + 1 < 3 && self.step == 0 {
                    self.policy_idx = self.policy_idx + 1;
                }
                SshKeyWizardNav::Stay
            },
        }
    }
}

} // verus!
