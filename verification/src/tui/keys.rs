//! The OpenPGP keys screen: its actions, the key generation wizard state and
//! the touch policy choices.
use vstd::prelude::*;
use vstd::string::*;
use vstd::utf8::*;
use crate::model::app_state::Screen;
use crate::model::openpgp::{KeyInfo, OpenPgpState};
use crate::model::touch_policy::{
    policy_label, touch_next, uif_tag, PolicyView, TouchPolicies, TouchPolicy, TouchSessionView,
    TouchSetStage, TouchStepView,
};
use crate::model::card::status_word;
use crate::model::openpgp_delete::OpenPgpKeySlot;
use crate::model::pin_operations::string_views;
use crate::model::YubiKeyState;
use crate::text::{backspaced, pop_char, push_char};
use crate::tui::widgets::pin_input::PinKey;

verus! {

/// What the keys screen asks the application to do.
#[derive(Debug)]
pub enum KeyAction {
    NoAction,
    NavigateTo(Screen),
    ExecuteViewStatus,
    ExecuteExportSSH,
    ExecuteKeyImport,
    ExecuteKeyGen,
    ExecuteTouchPolicySet { slot: String, policy: TouchPolicy, admin_pin: String },
    LoadGpgKeys,
    LoadKeyAttributes,
    LoadSshPubkey,
    LoadAttestation { serial: Option<u32> },
}

/// The steps of the key generation wizard.
#[derive(Debug, Clone, Copy, PartialEq, Eq, Structural)]
pub enum KeyGenStep {
    Algorithm,
    Expiry,
    Identity,
    Backup,
    Confirm,
    Running,
    Result,
}

/// The key generation wizard's state.
#[derive(Debug)]
pub struct KeyGenWizard {
    pub step: KeyGenStep,
    pub algorithm_index: usize,
    pub expiry_index: usize,
    pub custom_expiry: String,
    pub name: String,
    pub email: String,
    pub backup: bool,
    pub backup_path: String,
    pub active_field: usize,
    pub editing_path: bool,
    pub editing_custom_expiry: bool,
}

/// The wizard's state as plain values.
pub struct KeyGenWizardView {
    pub step: KeyGenStep,
    pub algorithm_index: usize,
    pub expiry_index: usize,
    pub custom_expiry: Seq<char>,
    pub name: Seq<char>,
    pub email: Seq<char>,
    pub backup: bool,
    pub backup_path: Seq<char>,
    pub active_field: usize,
    pub editing_path: bool,
    pub editing_custom_expiry: bool,
}

impl View for KeyGenWizard {
    type V = KeyGenWizardView;

    open spec fn view(&self) -> KeyGenWizardView {
        KeyGenWizardView {
            step: self.step,
            algorithm_index: self.algorithm_index,
            expiry_index: self.expiry_index,
            custom_expiry: self.custom_expiry@,
            name: self.name@,
            email: self.email@,
            backup: self.backup,
            backup_path: self.backup_path@,
            active_field: self.active_field,
            editing_path: self.editing_path,
            editing_custom_expiry: self.editing_custom_expiry,
        }
    }
}

/// The wizard's key bindings: up, down, enter and escape.
#[derive(Debug, Clone, Copy, PartialEq, Eq, Structural)]
pub enum WizardAction {
    SelectUp,
    SelectDown,
    Confirm,
    Back,
}

/// What the wizard screen does after an action: draw itself again, or close.
#[derive(Debug, Clone, Copy, PartialEq, Eq, Structural)]
pub enum WizardOutcome {
    Redraw,
    Close,
}

/// A key typed into the wizard's text fields.
#[derive(Debug, Clone, Copy, PartialEq, Eq, Structural)]
pub enum WizardKey {
    Char(char),
    Backspace,
    Tab,
    Other,
}

/// The wizard after an up or down move: the algorithm row moves within 0..=2, the
/// expiry row within 0..=3 (not while a custom date is being typed).
pub open spec fn wizard_select(w: KeyGenWizardView, up: bool) -> KeyGenWizardView {
    match w.step {
        KeyGenStep::Algorithm => if up && w.algorithm_index > 0 {
            KeyGenWizardView { algorithm_index: (w.algorithm_index - 1) as usize, ..w }
        } else if !up && w.algorithm_index < 2 {
            KeyGenWizardView { algorithm_index: (w.algorithm_index + 1) as usize, ..w }
        } else {
            w
        },
        KeyGenStep::Expiry => if w.editing_custom_expiry {
            w
        } else if up && w.expiry_index > 0 {
            KeyGenWizardView { expiry_index: (w.expiry_index - 1) as usize, ..w }
        } else if !up && w.expiry_index < 3 {
            KeyGenWizardView { expiry_index: (w.expiry_index + 1) as usize, ..w }
        } else {
            w
        },
        _ => w,
    }
}

/// The wizard after enter.
pub open spec fn wizard_confirm(w: KeyGenWizardView) -> (KeyGenWizardView, WizardOutcome) {
    match w.step {
        KeyGenStep::Algorithm => (KeyGenWizardView { step: KeyGenStep::Expiry, ..w }, WizardOutcome::Redraw),
        KeyGenStep::Expiry => if w.expiry_index != 3 {
            (KeyGenWizardView { step: KeyGenStep::Identity, ..w }, WizardOutcome::Redraw)
        } else if !w.editing_custom_expiry {
            (KeyGenWizardView { editing_custom_expiry: true, ..w }, WizardOutcome::Redraw)
        } else if w.custom_expiry.len() > 0 {
            (
                KeyGenWizardView { editing_custom_expiry: false, step: KeyGenStep::Identity, ..w },
                WizardOutcome::Redraw,
            )
        } else {
            (w, WizardOutcome::Redraw)
        },
        KeyGenStep::Identity => if w.active_field == 0 {
            (KeyGenWizardView { active_field: 1, ..w }, WizardOutcome::Redraw)
        } else if w.name.len() > 0 && w.email.len() > 0 {
            (KeyGenWizardView { step: KeyGenStep::Backup, ..w }, WizardOutcome::Redraw)
        } else {
            (w, WizardOutcome::Redraw)
        },
        KeyGenStep::Backup => if w.editing_path {
            (KeyGenWizardView { editing_path: false, step: KeyGenStep::Confirm, ..w }, WizardOutcome::Redraw)
        } else if w.backup {
            (KeyGenWizardView { editing_path: true, ..w }, WizardOutcome::Redraw)
        } else {
            (KeyGenWizardView { step: KeyGenStep::Confirm, ..w }, WizardOutcome::Redraw)
        },
        KeyGenStep::Confirm => (KeyGenWizardView { step: KeyGenStep::Result, ..w }, WizardOutcome::Redraw),
        KeyGenStep::Running | KeyGenStep::Result => (w, WizardOutcome::Close),
    }
}

/// The wizard after escape: one step back, or closed from the first and the last steps.
pub open spec fn wizard_back(w: KeyGenWizardView) -> (KeyGenWizardView, WizardOutcome) {
    match w.step {
        KeyGenStep::Expiry => (KeyGenWizardView { step: KeyGenStep::Algorithm, ..w }, WizardOutcome::Redraw),
        KeyGenStep::Identity => (KeyGenWizardView { step: KeyGenStep::Expiry, ..w }, WizardOutcome::Redraw),
        KeyGenStep::Backup => (KeyGenWizardView { step: KeyGenStep::Identity, ..w }, WizardOutcome::Redraw),
        KeyGenStep::Confirm => (KeyGenWizardView { step: KeyGenStep::Backup, ..w }, WizardOutcome::Redraw),
        _ => (w, WizardOutcome::Close),
    }
}

/// The wizard after one action, and whether its screen closes.
pub open spec fn wizard_action(w: KeyGenWizardView, a: WizardAction) -> (KeyGenWizardView, WizardOutcome) {
    match a {
        WizardAction::SelectUp => (wizard_select(w, true), WizardOutcome::Redraw),
        WizardAction::SelectDown => (wizard_select(w, false), WizardOutcome::Redraw),
        WizardAction::Confirm => wizard_confirm(w),
        WizardAction::Back => wizard_back(w),
    }
}

/// Which text field a typed key goes to: 0 the name, 1 the email, 2 the custom
/// expiry, 3 the backup path; `None` where no field is being edited.
pub open spec fn edited_field(w: KeyGenWizardView) -> Option<int> {
    match w.step {
        KeyGenStep::Identity => Some(if w.active_field == 0 { 0int } else { 1int }),
        KeyGenStep::Expiry => if w.editing_custom_expiry { Some(2int) } else { None },
        KeyGenStep::Backup => if w.editing_path { Some(3int) } else { None },
        _ => None,
    }
}

/// The wizard with field `f` of `edited_field` replaced by `g` applied to it.
pub open spec fn edit_field(w: KeyGenWizardView, f: int, g: spec_fn(Seq<char>) -> Seq<char>) -> KeyGenWizardView {
    if f == 0 {
        KeyGenWizardView { name: g(w.name), ..w }
    } else if f == 1 {
        KeyGenWizardView { email: g(w.email), ..w }
    } else if f == 2 {
        KeyGenWizardView { custom_expiry: g(w.custom_expiry), ..w }
    } else {
        KeyGenWizardView { backup_path: g(w.backup_path), ..w }
    }
}

/// The wizard after a typed key, and whether the screen used the key.
pub open spec fn wizard_key(w: KeyGenWizardView, k: WizardKey) -> (KeyGenWizardView, bool) {
    match k {
        WizardKey::Char(c) => match edited_field(w) {
            Some(f) => (edit_field(w, f, |s: Seq<char>| s.push(c)), true),
            None => (w, false),
        },
        WizardKey::Backspace => match edited_field(w) {
            Some(f) => (edit_field(w, f, |s: Seq<char>| backspaced(s)), true),
            None => (w, false),
        },
        WizardKey::Tab => if w.step == KeyGenStep::Identity {
            (KeyGenWizardView { active_field: if w.active_field == 0 { 1usize } else { 0usize }, ..w }, true)
        } else {
            (w, false)
        },
        WizardKey::Other => (w, false),
    }
}

/// The algorithms that the key generation wizard offers, in its order.
#[derive(Debug, Clone, Copy, PartialEq, Eq, Structural)]
pub enum KeyAlgorithm {
    Ed25519,
    Rsa2048,
    Rsa4096,
}

/// What a key generation needs, as the wizard collected it.
#[derive(Debug)]
pub struct KeyGenParams {
    pub algorithm: KeyAlgorithm,
    /// `0` (never), `1y`, `2y`, or the custom expiry as typed.
    pub expire_date: String,
    pub name: String,
    pub email: String,
    pub backup: bool,
    /// The backup file, where a backup was asked for.
    pub backup_path: Option<String>,
}

/// The algorithm at a position of the wizard's list (the last for any later one).
pub open spec fn algorithm_at(i: usize) -> KeyAlgorithm {
    if i == 0 {
        KeyAlgorithm::Ed25519
    } else if i == 1 {
        KeyAlgorithm::Rsa2048
    } else {
        KeyAlgorithm::Rsa4096
    }
}

/// The expiry at a position of the wizard's list; the last position is the
/// custom text.
pub open spec fn expiry_at(i: usize, custom: Seq<char>) -> Seq<char> {
    if i == 0 {
        "0"@
    } else if i == 1 {
        "1y"@
    } else if i == 2 {
        "2y"@
    } else {
        custom
    }
}

/// The parameters of a key generation from the screen's wizard, where one is open.
pub fn keygen_params_from_state(state: &KeyState) -> (p: Option<KeyGenParams>)
    ensures
        match state.keygen_wizard {
            None => p is None,
            Some(w) => p matches Some(k) && k.algorithm == algorithm_at(w.algorithm_index)
                && k.expire_date@ == expiry_at(w.expiry_index, w.custom_expiry@) && k.name@ == w.name@
                && k.email@ == w.email@ && k.backup == w.backup && (if w.backup {
                k.backup_path matches Some(b) && b@ == w.backup_path@
            } else {
                k.backup_path is None
            }),
        },
{
    let w = match &state.keygen_wizard {
        Some(w) => w,
        None => return None,
    };
    let algorithm = if w.algorithm_index == 0 {
        KeyAlgorithm::Ed25519
    } else if w.algorithm_index == 1 {
        KeyAlgorithm::Rsa2048
    } else {
        KeyAlgorithm::Rsa4096
    };
    let expire_date = if w.expiry_index == 0 {
        String::from_str("0")
    } else if w.expiry_index == 1 {
        String::from_str("1y")
    } else if w.expiry_index == 2 {
        String::from_str("2y")
    } else {
        w.custom_expiry.clone()
    };
    Some(KeyGenParams {
        algorithm,
        expire_date,
        name: w.name.clone(),
        email: w.email.clone(),
        backup: w.backup,
        backup_path: if w.backup {
            Some(w.backup_path.clone())
        } else {
            None
        },
    })
}

impl KeyGenWizard {
    /// A wizard at its first step, with the backup file named after the date.
    pub fn new(default_backup_date: &str) -> (w: Self)
        ensures
            w.step == KeyGenStep::Algorithm,
            w.algorithm_index == 0 && w.expiry_index == 0 && w.active_field == 0,
            w.custom_expiry@.len() == 0 && w.name@.len() == 0 && w.email@.len() == 0,
            !w.backup && !w.editing_path && !w.editing_custom_expiry,
            w.backup_path@ == "~/yubikey-backup-"@ + default_backup_date@ + ".gpg"@,
    {
        let mut backup_path = String::from_str("~/yubikey-backup-");
        backup_path.append(default_backup_date);
        backup_path.append(".gpg");
        KeyGenWizard {
            step: KeyGenStep::Algorithm,
            algorithm_index: 0,
            expiry_index: 0,
            custom_expiry: String::new(),
            name: String::new(),
            email: String::new(),
            backup: false,
            backup_path,
            active_field: 0,
            editing_path: false,
            editing_custom_expiry: false,
        }
    }

    /// Applies one of the wizard's actions; says whether its screen closes.
    pub fn on_action(&mut self, action: WizardAction) -> (outcome: WizardOutcome)
        ensures
            (final(self)@, outcome) == wizard_action(old(self)@, action),
    {
        match action {
            WizardAction::SelectUp => {
                match self.step {
                    KeyGenStep::Algorithm => {
                        if self.algorithm_index > 0 {
                            self.algorithm_index = self.algorithm_index - 1;
                        }
                    },
                    KeyGenStep::Expiry => {
                        if !self.editing_custom_expiry && self.expiry_index > 0 {
                            self.expiry_index = self.expiry_index - 1;
                        }
                    },
                    _ => {},
                }
                WizardOutcome::Redraw
            },
            WizardAction::SelectDown => {
                match self.step {
                    KeyGenStep::Algorithm => {
                        if self.algorithm_index < 2 {
                            self.algorithm_index = self.algorithm_index + 1;
                        }
                    },
                    KeyGenStep::Expiry => {
                        if !self.editing_custom_expiry && self.expiry_index < 3 {
                            self.expiry_index = self.expiry_index + 1;
                        }
                    },
                    _ => {},
                }
                WizardOutcome::Redraw
            },
            WizardAction::Confirm => self.confirm(),
            WizardAction::Back => {
                match self.step {
                    KeyGenStep::Expiry => {
                        self.step = KeyGenStep::Algorithm;
                        WizardOutcome::Redraw
                    },
                    KeyGenStep::Identity => {
                        self.step = KeyGenStep::Expiry;
                        WizardOutcome::Redraw
                    },
                    KeyGenStep::Backup => {
                        self.step = KeyGenStep::Identity;
                        WizardOutcome::Redraw
                    },
                    KeyGenStep::Confirm => {
                        self.step = KeyGenStep::Backup;
                        WizardOutcome::Redraw
                    },
                    _ => WizardOutcome::Close,
                }
            },
        }
    }

    fn confirm(&mut self) -> (outcome: WizardOutcome)
        ensures
            (final(self)@, outcome) == wizard_confirm(old(self)@),
    {
        match self.step {
            KeyGenStep::Algorithm => {
                self.step = KeyGenStep::Expiry;
            },
            KeyGenStep::Expiry => {
                if self.expiry_index == 3 {
                    if !self.editing_custom_expiry {
                        self.editing_custom_expiry = true;
                    } else if self.custom_expiry.as_str().unicode_len() > 0 {
                        self.editing_custom_expiry = false;
                        self.step = KeyGenStep::Identity;
                    }
                } else {
                    self.step = KeyGenStep::Identity;
                }
            },
            KeyGenStep::Identity => {
                if self.active_field == 0 {
                    self.active_field = 1;
                } else if self.name.as_str().unicode_len() > 0 && self.email.as_str().unicode_len() > 0 {
                    self.step = KeyGenStep::Backup;
                }
            },
            KeyGenStep::Backup => {
                if self.editing_path {
                    self.editing_path = false;
                    self.step = KeyGenStep::Confirm;
                } else if self.backup {
                    self.editing_path = true;
                } else {
                    self.step = KeyGenStep::Confirm;
                }
            },
            KeyGenStep::Confirm => {
                self.step = KeyGenStep::Result;
            },
            KeyGenStep::Running | KeyGenStep::Result => {
                return WizardOutcome::Close;
            },
        }
        WizardOutcome::Redraw
    }

    /// Applies a typed key to the field being edited; says whether the key was used.
    pub fn on_key(&mut self, key: WizardKey) -> (used: bool)
        ensures
            (final(self)@, used) == wizard_key(old(self)@, key),
    {
        let field: usize = match self.step {
            KeyGenStep::Identity => if self.active_field == 0 { 0 } else { 1 },
            KeyGenStep::Expiry => if self.editing_custom_expiry { 2 } else { 4 },
            KeyGenStep::Backup => if self.editing_path { 3 } else { 4 },
            _ => 4,
        };
        match key {
            WizardKey::Char(c) => {
                if field == 0 {
                    push_char(&mut self.name, c);
                } else if field == 1 {
                    push_char(&mut self.email, c);
                } else if field == 2 {
                    push_char(&mut self.custom_expiry, c);
                } else if field == 3 {
                    push_char(&mut self.backup_path, c);
                } else {
                    return false;
                }
                true
            },
            WizardKey::Backspace => {
                if field == 0 {
                    pop_char(&mut self.name);
                } else if field == 1 {
                    pop_char(&mut self.email);
                } else if field == 2 {
                    pop_char(&mut self.custom_expiry);
                } else if field == 3 {
                    pop_char(&mut self.backup_path);
                } else {
                    return false;
                }
                true
            },
            WizardKey::Tab => {
                if self.step == KeyGenStep::Identity {
                    self.active_field = if self.active_field == 0 { 1 } else { 0 };
                    true
                } else {
                    false
                }
            },
            WizardKey::Other => false,
        }
    }
}

/// The row marker of a list: `> ` on the highlighted row, else two spaces.
pub open spec fn row_marker(selected: bool) -> Seq<char> {
    if selected {
        "> "@
    } else {
        "  "@
    }
}

/// The algorithm rows' names.
pub open spec fn algorithm_name(i: int) -> Seq<char> {
    if i == 0 {
        "Ed25519/Cv25519"@
    } else if i == 1 {
        "RSA 2048"@
    } else {
        "RSA 4096"@
    }
}

/// The algorithm rows' explanations.
pub open spec fn algorithm_desc(i: int) -> Seq<char> {
    if i == 0 {
        "Modern elliptic curve — recommended for new keys"@
    } else if i == 1 {
        "Classic RSA — widely compatible"@
    } else {
        "Classic RSA — widest compatibility, slowest"@
    }
}

/// The expiry rows.
pub open spec fn expiry_option(i: int) -> Seq<char> {
    if i == 0 {
        "No expiry"@
    } else if i == 1 {
        "1 year"@
    } else if i == 2 {
        "2 years"@
    } else {
        "Custom date"@
    }
}

/// The header of each wizard step.
pub open spec fn wizard_header(step: KeyGenStep) -> Seq<char> {
    match step {
        KeyGenStep::Algorithm => "Generate Key — Step 1/5: Algorithm"@,
        KeyGenStep::Expiry => "Generate Key — Step 2/5: Expiry"@,
        KeyGenStep::Identity => "Generate Key — Step 3/5: Identity"@,
        KeyGenStep::Backup => "Generate Key — Step 4/5: Backup"@,
        KeyGenStep::Confirm => "Generate Key — Step 5/5: Confirm"@,
        KeyGenStep::Running => "Generating Key..."@,
        KeyGenStep::Result => "Generate Key"@,
    }
}

/// One algorithm row, with its explanation under the highlighted one.
pub open spec fn algorithm_row(i: int, sel: int) -> Seq<Seq<char>> {
    if i == sel {
        seq![row_marker(true) + algorithm_name(i), "    "@ + algorithm_desc(i)]
    } else {
        seq![row_marker(false) + algorithm_name(i)]
    }
}

/// The expiry shown in the summary.
pub open spec fn expiry_summary(w: KeyGenWizardView) -> Seq<char> {
    if w.expiry_index < 3 {
        expiry_option(w.expiry_index as int)
    } else {
        "Custom: "@ + w.custom_expiry
    }
}

/// The lines under the header of the wizard's current step.
pub open spec fn wizard_lines(w: KeyGenWizardView) -> Seq<Seq<char>> {
    match w.step {
        KeyGenStep::Algorithm => seq!["Select key algorithm:"@, ""@] + algorithm_row(0, w.algorithm_index as int)
            + algorithm_row(1, w.algorithm_index as int) + algorithm_row(2, w.algorithm_index as int),
        KeyGenStep::Expiry => seq![
            "Select key expiry:"@,
            ""@,
            row_marker(w.expiry_index == 0) + expiry_option(0),
            row_marker(w.expiry_index == 1) + expiry_option(1),
            row_marker(w.expiry_index == 2) + expiry_option(2),
            row_marker(w.expiry_index == 3) + expiry_option(3),
        ] + if w.expiry_index == 3 {
            seq![
                ""@,
                "Enter date (YYYY-MM-DD):"@,
                if w.editing_custom_expiry { w.custom_expiry + "_"@ } else { w.custom_expiry },
            ]
        } else {
            Seq::empty()
        },
        KeyGenStep::Identity => seq![
            "Enter your name and email:"@,
            ""@,
            if w.active_field == 0 { "Name: [editing]"@ } else { "Name:"@ },
            "  "@ + w.name,
            ""@,
            if w.active_field == 1 { "Email: [editing]"@ } else { "Email:"@ },
            "  "@ + w.email,
            ""@,
            "[Tab] Switch field  [Enter] Next"@,
        ],
        KeyGenStep::Backup => seq![
            "Create a backup copy before moving key to card?"@,
            ""@,
            if w.backup { "> [Y] Create backup"@ } else { "  [Y] Create backup"@ },
            if !w.backup { "> [N] Skip backup"@ } else { "  [N] Skip backup"@ },
        ] + if w.backup {
            seq![
                ""@,
                "Backup path:"@,
                if w.editing_path { w.backup_path + "_"@ } else { w.backup_path + " [Enter to edit]"@ },
            ]
        } else {
            Seq::empty()
        },
        KeyGenStep::Confirm => seq![
            "Summary — press Enter to generate:"@,
            ""@,
            "Algorithm: "@ + algorithm_name(w.algorithm_index as int),
            "Expiry:    "@ + expiry_summary(w),
            "Name:      "@ + w.name,
            "Email:     "@ + w.email,
            "Backup:    "@ + if w.backup { "Yes ("@ + w.backup_path + ")"@ } else { "No"@ },
            ""@,
            "  Press Enter to continue."@,
        ],
        KeyGenStep::Running => seq![
            ""@,
            "Key generation in progress."@,
            "This may take up to 60 seconds for RSA 4096."@,
        ],
        KeyGenStep::Result => seq![
            ""@,
            "Key generation requires Admin PIN entry."@,
            "Full implementation coming soon."@,
            ""@,
            "Press Enter or Esc to close."@,
        ],
    }
}

fn cat(a: &str, b: &str) -> (s: String)
    ensures
        s@ == a@ + b@,
{
    let mut s = String::from_str(a);
    s.append(b);
    s
}

fn algorithm_name_str(i: usize) -> (s: &'static str)
    ensures
        s@ == algorithm_name(i as int),
{
    if i == 0 {
        "Ed25519/Cv25519"
    } else if i == 1 {
        "RSA 2048"
    } else {
        "RSA 4096"
    }
}

fn algorithm_desc_str(i: usize) -> (s: &'static str)
    ensures
        s@ == algorithm_desc(i as int),
{
    if i == 0 {
        "Modern elliptic curve — recommended for new keys"
    } else if i == 1 {
        "Classic RSA — widely compatible"
    } else {
        "Classic RSA — widest compatibility, slowest"
    }
}

fn expiry_option_str(i: usize) -> (s: &'static str)
    ensures
        s@ == expiry_option(i as int),
{
    if i == 0 {
        "No expiry"
    } else if i == 1 {
        "1 year"
    } else if i == 2 {
        "2 years"
    } else {
        "Custom date"
    }
}

fn row_marker_str(selected: bool) -> (s: &'static str)
    ensures
        s@ == row_marker(selected),
{
    if selected {
        "> "
    } else {
        "  "
    }
}

pub(crate) fn push_line(lines: &mut Vec<String>, s: String)
    ensures
        string_views(final(lines)@) == string_views(old(lines)@).push(s@),
{
    lines.push(s);
    assert(string_views(lines@) =~= string_views(old(lines)@).push(s@));
}

impl KeyGenWizard {
    fn algorithm_lines(&self) -> (r: Vec<String>)
        requires
            self.step == KeyGenStep::Algorithm,
        ensures
            string_views(r@) == wizard_lines(self@),
    {
        let mut r: Vec<String> = Vec::new();
        push_line(&mut r, String::from_str("Select key algorithm:"));
        push_line(&mut r, String::from_str(""));
        let mut i: usize = 0;
        while i < 3
            invariant
                i <= 3,
                self.step == KeyGenStep::Algorithm,
                string_views(r@) == seq!["Select key algorithm:"@, ""@] + if i == 0 {
                    Seq::<Seq<char>>::empty()
                } else if i == 1 {
                    algorithm_row(0, self.algorithm_index as int)
                } else if i == 2 {
                    algorithm_row(0, self.algorithm_index as int) + algorithm_row(1, self.algorithm_index as int)
                } else {
                    algorithm_row(0, self.algorithm_index as int) + algorithm_row(1, self.algorithm_index as int)
                        + algorithm_row(2, self.algorithm_index as int)
                },
            decreases 3 - i,
        {
            let ghost before = string_views(r@);
            let sel = i == self.algorithm_index;
            push_line(&mut r, cat(row_marker_str(sel), algorithm_name_str(i)));
            if sel {
                push_line(&mut r, cat("    ", algorithm_desc_str(i)));
            }
            assert(string_views(r@) =~= before + algorithm_row(i as int, self.algorithm_index as int));
            i = i + 1;
        }
        r
    }

    fn expiry_lines(&self) -> (r: Vec<String>)
        requires
            self.step == KeyGenStep::Expiry,
        ensures
            string_views(r@) == wizard_lines(self@),
    {
        let mut r: Vec<String> = Vec::new();
        push_line(&mut r, String::from_str("Select key expiry:"));
        push_line(&mut r, String::from_str(""));
        push_line(&mut r, cat(row_marker_str(self.expiry_index == 0), expiry_option_str(0)));
        push_line(&mut r, cat(row_marker_str(self.expiry_index == 1), expiry_option_str(1)));
        push_line(&mut r, cat(row_marker_str(self.expiry_index == 2), expiry_option_str(2)));
        push_line(&mut r, cat(row_marker_str(self.expiry_index == 3), expiry_option_str(3)));
        if self.expiry_index == 3 {
            push_line(&mut r, String::from_str(""));
            push_line(&mut r, String::from_str("Enter date (YYYY-MM-DD):"));
            if self.editing_custom_expiry {
                push_line(&mut r, cat(self.custom_expiry.as_str(), "_"));
            } else {
                push_line(&mut r, self.custom_expiry.clone());
            }
        }
        assert(string_views(r@) =~= wizard_lines(self@));
        r
    }

    fn identity_lines(&self) -> (r: Vec<String>)
        requires
            self.step == KeyGenStep::Identity,
        ensures
            string_views(r@) == wizard_lines(self@),
    {
        let mut r: Vec<String> = Vec::new();
        push_line(&mut r, String::from_str("Enter your name and email:"));
        push_line(&mut r, String::from_str(""));
        push_line(&mut r, String::from_str(if self.active_field == 0 { "Name: [editing]" } else { "Name:" }));
        push_line(&mut r, cat("  ", self.name.as_str()));
        push_line(&mut r, String::from_str(""));
        push_line(&mut r, String::from_str(if self.active_field == 1 { "Email: [editing]" } else { "Email:" }));
        push_line(&mut r, cat("  ", self.email.as_str()));
        push_line(&mut r, String::from_str(""));
        push_line(&mut r, String::from_str("[Tab] Switch field  [Enter] Next"));
        assert(string_views(r@) =~= wizard_lines(self@));
        r
    }

    fn backup_lines(&self) -> (r: Vec<String>)
        requires
            self.step == KeyGenStep::Backup,
        ensures
            string_views(r@) == wizard_lines(self@),
    {
        let mut r: Vec<String> = Vec::new();
        push_line(&mut r, String::from_str("Create a backup copy before moving key to card?"));
        push_line(&mut r, String::from_str(""));
        push_line(&mut r, String::from_str(if self.backup { "> [Y] Create backup" } else { "  [Y] Create backup" }));
        push_line(&mut r, String::from_str(if !self.backup { "> [N] Skip backup" } else { "  [N] Skip backup" }));
        if self.backup {
            push_line(&mut r, String::from_str(""));
            push_line(&mut r, String::from_str("Backup path:"));
            if self.editing_path {
                push_line(&mut r, cat(self.backup_path.as_str(), "_"));
            } else {
                push_line(&mut r, cat(self.backup_path.as_str(), " [Enter to edit]"));
            }
        }
        assert(string_views(r@) =~= wizard_lines(self@));
        r
    }

    fn confirm_lines(&self) -> (r: Vec<String>)
        requires
            self.step == KeyGenStep::Confirm,
        ensures
            string_views(r@) == wizard_lines(self@),
    {
        let mut r: Vec<String> = Vec::new();
        push_line(&mut r, String::from_str("Summary — press Enter to generate:"));
        push_line(&mut r, String::from_str(""));
        push_line(&mut r, cat("Algorithm: ", algorithm_name_str(self.algorithm_index)));
        let expiry = if self.expiry_index < 3 {
            String::from_str(expiry_option_str(self.expiry_index))
        } else {
            cat("Custom: ", self.custom_expiry.as_str())
        };
        push_line(&mut r, cat("Expiry:    ", expiry.as_str()));
        push_line(&mut r, cat("Name:      ", self.name.as_str()));
        push_line(&mut r, cat("Email:     ", self.email.as_str()));
        let backup = if self.backup {
            let mut b = cat("Yes (", self.backup_path.as_str());
            b.append(")");
            b
        } else {
            String::from_str("No")
        };
        push_line(&mut r, cat("Backup:    ", backup.as_str()));
        push_line(&mut r, String::from_str(""));
        push_line(&mut r, String::from_str("  Press Enter to continue."));
        assert(string_views(r@) =~= wizard_lines(self@));
        r
    }

    /// What the wizard screen shows for its current step: the header and the
    /// lines under it.
    pub fn screen(&self) -> (r: (String, Vec<String>))
        ensures
            r.0@ == wizard_header(self.step),
            string_views(r.1@) == wizard_lines(self@),
    {
        match self.step {
            KeyGenStep::Algorithm => (
                String::from_str("Generate Key — Step 1/5: Algorithm"),
                self.algorithm_lines(),
            ),
            KeyGenStep::Expiry => (String::from_str("Generate Key — Step 2/5: Expiry"), self.expiry_lines()),
            KeyGenStep::Identity => (String::from_str("Generate Key — Step 3/5: Identity"), self.identity_lines()),
            KeyGenStep::Backup => (String::from_str("Generate Key — Step 4/5: Backup"), self.backup_lines()),
            KeyGenStep::Confirm => (String::from_str("Generate Key — Step 5/5: Confirm"), self.confirm_lines()),
            KeyGenStep::Running => {
                let mut r: Vec<String> = Vec::new();
                push_line(&mut r, String::from_str(""));
                push_line(&mut r, String::from_str("Key generation in progress."));
                push_line(&mut r, String::from_str("This may take up to 60 seconds for RSA 4096."));
                assert(string_views(r@) =~= wizard_lines(self@));
                (String::from_str("Generating Key..."), r)
            },
            KeyGenStep::Result => {
                let mut r: Vec<String> = Vec::new();
                push_line(&mut r, String::from_str(""));
                push_line(&mut r, String::from_str("Key generation requires Admin PIN entry."));
                push_line(&mut r, String::from_str("Full implementation coming soon."));
                push_line(&mut r, String::from_str(""));
                push_line(&mut r, String::from_str("Press Enter or Esc to close."));
                assert(string_views(r@) =~= wizard_lines(self@));
                (String::from_str("Generate Key"), r)
            },
        }
    }
}

/// A fingerprint as the slot table shows it: its first 16 bytes where they end on
/// a character boundary (`str::get(..16)`), else the whole fingerprint.
pub open spec fn short_fingerprint(fp: Seq<char>) -> Seq<char> {
    let b = encode_utf8(fp);
    if b.len() >= 16 && is_char_boundary(b, 16) {
        decode_utf8(b.subrange(0, 16))
    } else {
        fp
    }
}

fn short_fingerprint_of(fp: &str) -> (r: String)
    ensures
        r@ == short_fingerprint(fp@),
{
    let n = fp.as_bytes().len();
    if n >= 16 && fp.is_char_boundary(16) {
        let (a, _) = fp.split_at(16);
        proof {
            broadcast use vstd::utf8::encode_utf8_decode_utf8;
            assert(decode_utf8(encode_utf8(a@)) == a@);
        }
        String::from_str(a)
    } else {
        String::from_str(fp)
    }
}

/// A row of the key slot table: slot, `[SET]` or `[EMPTY]`, the short
/// fingerprint or a dash.
pub open spec fn slot_row(name: Seq<char>, key: Option<KeyInfo>) -> (Seq<char>, Seq<char>, Seq<char>) {
    match key {
        Some(k) => (name, "[SET]"@, short_fingerprint(k.fingerprint@)),
        None => (name, "[EMPTY]"@, "—"@),
    }
}

/// The views of the table's rows.
pub open spec fn row_views(rows: Seq<(String, String, String)>) -> Seq<(Seq<char>, Seq<char>, Seq<char>)> {
    rows.map_values(|r: (String, String, String)| (r.0@, r.1@, r.2@))
}

fn slot_row_of(name: &str, key: &Option<KeyInfo>) -> (r: (String, String, String))
    ensures
        (r.0@, r.1@, r.2@) == slot_row(name@, *key),
{
    match key {
        Some(k) => (String::from_str(name), String::from_str("[SET]"), short_fingerprint_of(k.fingerprint.as_str())),
        None => (String::from_str(name), String::from_str("[EMPTY]"), String::from_str("—")),
    }
}

/// The key slot table of the keys screen: signature, encryption and
/// authentication, in that order.
pub fn keys_slot_rows(openpgp: &OpenPgpState) -> (rows: Vec<(String, String, String)>)
    ensures
        row_views(rows@) == seq![
            slot_row("Signature"@, openpgp.signature_key),
            slot_row("Encryption"@, openpgp.encryption_key),
            slot_row("Authentication"@, openpgp.authentication_key),
        ],
{
    let rows = vec![
        slot_row_of("Signature", &openpgp.signature_key),
        slot_row_of("Encryption", &openpgp.encryption_key),
        slot_row_of("Authentication", &openpgp.authentication_key),
    ];
    assert(row_views(rows@) =~= seq![
        slot_row("Signature"@, openpgp.signature_key),
        slot_row("Encryption"@, openpgp.encryption_key),
        slot_row("Authentication"@, openpgp.authentication_key),
    ]);
    rows
}

/// A slot's touch policy as the keys screen shows it: the policy where the slot
/// holds a key, else a dash.
pub open spec fn touch_shown(has_key: bool, p: PolicyView) -> Seq<char> {
    if has_key {
        policy_label(p)
    } else {
        "—"@
    }
}

/// The touch policy lines of the keys screen.
pub open spec fn touch_lines(openpgp: OpenPgpState, tp: TouchPolicies) -> Seq<Seq<char>> {
    seq![
        ""@,
        "Touch Policies:"@,
        "  Signature:      ["@ + touch_shown(openpgp.signature_key is Some, tp.signature@) + "]"@,
        "  Encryption:     ["@ + touch_shown(openpgp.encryption_key is Some, tp.encryption@) + "]"@,
        "  Authentication: ["@ + touch_shown(openpgp.authentication_key is Some, tp.authentication@) + "]"@,
        "  Attestation:    ["@ + policy_label(tp.attestation@) + "]"@,
    ]
}

fn touch_line(label: &str, has_key: bool, p: &TouchPolicy) -> (s: String)
    ensures
        s@ == label@ + touch_shown(has_key, p@) + "]"@,
{
    let mut s = String::from_str(label);
    if has_key {
        let t = p.to_string();
        s.append(t.as_str());
    } else {
        s.append("—");
    }
    s.append("]");
    s
}

/// The touch policy lines of the keys screen (see [`touch_lines`]).
pub fn keys_touch_lines(openpgp: &OpenPgpState, tp: &TouchPolicies) -> (lines: Vec<String>)
    ensures
        string_views(lines@) == touch_lines(*openpgp, *tp),
{
    let mut lines: Vec<String> = Vec::new();
    push_line(&mut lines, String::from_str(""));
    push_line(&mut lines, String::from_str("Touch Policies:"));
    push_line(
        &mut lines,
        touch_line("  Signature:      [", openpgp.signature_key.is_some(), &tp.signature),
    );
    push_line(
        &mut lines,
        touch_line("  Encryption:     [", openpgp.encryption_key.is_some(), &tp.encryption),
    );
    push_line(
        &mut lines,
        touch_line("  Authentication: [", openpgp.authentication_key.is_some(), &tp.authentication),
    );
    push_line(&mut lines, touch_line("  Attestation:    [", true, &tp.attestation));
    assert(string_views(lines@) =~= touch_lines(*openpgp, *tp));
    lines
}

/// Typing a character into the field being edited and then a backspace leaves the
/// wizard as it was.
pub proof fn lemma_backspace_undoes_char(w: KeyGenWizardView, c: char)
    requires
        edited_field(w) is Some,
    ensures
        wizard_key(wizard_key(w, WizardKey::Char(c)).0, WizardKey::Backspace) == (w, true),
{
    assert(w.name.push(c).drop_last() =~= w.name);
    assert(w.email.push(c).drop_last() =~= w.email);
    assert(w.custom_expiry.push(c).drop_last() =~= w.custom_expiry);
    assert(w.backup_path.push(c).drop_last() =~= w.backup_path);
}

/// The wizard's rows stay in range: the algorithm row within 0..=2, the expiry row
/// within 0..=3 and the identity field 0 or 1, whatever is pressed or typed.
pub proof fn lemma_wizard_rows_in_range(w: KeyGenWizardView, a: WizardAction, k: WizardKey)
    requires
        w.algorithm_index <= 2,
        w.expiry_index <= 3,
        w.active_field <= 1,
    ensures
        wizard_action(w, a).0.algorithm_index <= 2,
        wizard_action(w, a).0.expiry_index <= 3,
        wizard_action(w, a).0.active_field <= 1,
        wizard_key(w, k).0.algorithm_index <= 2,
        wizard_key(w, k).0.expiry_index <= 3,
        wizard_key(w, k).0.active_field <= 1,
{
}

/// Escape after enter has moved the wizard to the next step brings it back to the
/// step it was on.
pub proof fn lemma_back_undoes_step(w: KeyGenWizardView)
    requires
        w.step != KeyGenStep::Confirm,
        wizard_confirm(w).1 == WizardOutcome::Redraw,
        wizard_confirm(w).0.step != w.step,
    ensures
        wizard_back(wizard_confirm(w).0) == (
            KeyGenWizardView { step: w.step, ..wizard_confirm(w).0 },
            WizardOutcome::Redraw,
        ),
{
}

/// The `ykman`-style slot name of a touch policy row (signature by default).
pub open spec fn slot_name(index: usize) -> Seq<char> {
    if index == 1 {
        "enc"@
    } else if index == 2 {
        "aut"@
    } else if index == 3 {
        "att"@
    } else {
        "sig"@
    }
}

/// The touch-policy rows and the card's UIF data objects line up: row `i`
/// (signature, encryption, authentication, attestation) is the slot whose UIF
/// object is `D6 + i`, so the four rows have four distinct objects.
pub proof fn lemma_touch_rows_uif(i: usize)
    requires
        i < 4,
    ensures
        uif_tag(slot_name(i)) == Some((0xD6 + i) as u8),
        forall|j: usize| j < 4 && j != i ==> uif_tag(#[trigger] slot_name(j)) != uif_tag(slot_name(i)),
{
    reveal_strlit("sig");
    reveal_strlit("enc");
    reveal_strlit("aut");
    reveal_strlit("att");
    assert("sig"@ != "enc"@ && "sig"@ != "aut"@ && "sig"@ != "att"@) by {
        assert("sig"@[0] != "enc"@[0] && "sig"@[1] != "aut"@[1] && "sig"@[1] != "att"@[1]);
    }
    assert("enc"@ != "aut"@ && "enc"@ != "att"@) by {
        assert("enc"@[0] != "aut"@[0] && "enc"@[0] != "att"@[0]);
    }
    assert("aut"@ != "att"@) by {
        assert("aut"@[1] != "att"@[1]);
    }
}

/// Only the four rows' slot names have a UIF object.
pub proof fn lemma_uif_only_rows(slot: Seq<char>)
    ensures
        uif_tag(slot) is Some ==> exists|i: usize| i < 4 && slot == #[trigger] slot_name(i),
{
    if uif_tag(slot) is Some {
        if slot == "sig"@ {
            assert(slot == slot_name(0));
        } else if slot == "enc"@ {
            assert(slot == slot_name(1));
        } else if slot == "aut"@ {
            assert(slot == slot_name(2));
        } else {
            assert(slot == slot_name(3));
        }
    }
}

/// After the Admin PIN is verified, a session for row `i` writes the policy with
/// PUT DATA `00 DA 00 (D6 + i)`: into that row's UIF object and no other.
pub proof fn lemma_put_targets_row(s: TouchSessionView, i: usize, reply: Seq<u8>)
    requires
        i < 4,
        s.slot == slot_name(i),
        uif_tag(s.slot) == Some(s.do_tag),
        s.stage == TouchSetStage::AwaitVerify,
        status_word(reply) == 0x9000,
    ensures
        touch_next(s, Some(reply)).1 matches TouchStepView::Transmit(a) && a.len() == 7 && a[0] == 0x00
            && a[1] == 0xDA && a[2] == 0x00 && a[3] == 0xD6 + i,
{
    lemma_touch_rows_uif(i);
}

/// The display name of a touch policy row (signature by default).
pub open spec fn slot_display(index: usize) -> Seq<char> {
    if index == 1 {
        "Encryption"@
    } else if index == 2 {
        "Authentication"@
    } else if index == 3 {
        "Attestation"@
    } else {
        "Signature"@
    }
}

/// The slot name of a touch policy row.
pub fn touch_slot_name(index: usize) -> (s: &'static str)
    ensures
        s@ == slot_name(index),
{
    match index {
        0 => "sig",
        1 => "enc",
        2 => "aut",
        3 => "att",
        _ => "sig",
    }
}

/// The display name of a touch policy row.
pub fn touch_slot_display(index: usize) -> (s: &'static str)
    ensures
        s@ == slot_display(index),
{
    match index {
        0 => "Signature",
        1 => "Encryption",
        2 => "Authentication",
        3 => "Attestation",
        _ => "Signature",
    }
}

/// The policy of a choice row: off, on, fixed, cached, cached-fixed; off by default.
pub fn touch_policy_from_index(index: usize) -> (p: TouchPolicy)
    ensures
        p@ == (if index == 1 {
            PolicyView::On
        } else if index == 2 {
            PolicyView::Fixed
        } else if index == 3 {
            PolicyView::Cached
        } else if index == 4 {
            PolicyView::CachedFixed
        } else {
            PolicyView::Off
        }),
{
    match index {
        0 => TouchPolicy::Off,
        1 => TouchPolicy::On,
        2 => TouchPolicy::Fixed,
        3 => TouchPolicy::Cached,
        4 => TouchPolicy::CachedFixed,
        _ => TouchPolicy::Off,
    }
}

/// Where a keys screen sends the user after an action.
#[derive(Debug)]
pub enum KeysNav {
    /// Stay on the screen (drawn again where something changed).
    Stay,
    /// Close the screen.
    Back,
    /// Ask for the Admin PIN under this title.
    AdminPinPrompt(String),
    /// Open the touch policy choices for this slot row.
    ChooseTouchValue(usize),
    /// Ask for the Admin PIN before deleting the key in this slot.
    AskPinToDelete(OpenPgpKeySlot),
    /// Replace the screen with the confirmation of a deletion.
    ConfirmDelete(DeleteKeyScreen),
    /// Show a message.
    Popup { title: String, body: String },
    /// Open the key generation wizard.
    LaunchKeyGen(KeyGenWizard),
    /// Open the key import screen on the screen's device.
    OpenImport,
    /// Open a detail screen.
    ShowDetail(KeyDetailScreen),
    /// Open the touch policy screen on the screen's device.
    OpenTouchPolicy,
    /// Read the device again and reopen the keys screen on it.
    Refresh,
    /// Show the keys screen's help text.
    Help,
}

/// The name of a touch policy choice row (off, on, fixed, cached, cached-fixed).
pub open spec fn touch_value_name(i: int) -> Seq<char> {
    if i == 0 {
        "Off"@
    } else if i == 1 {
        "On"@
    } else if i == 2 {
        "Fixed"@
    } else if i == 3 {
        "Cached"@
    } else {
        "CachedFixed"@
    }
}

/// The slot named in the title of the Admin PIN prompt ("Unknown" past the four slots).
pub open spec fn value_screen_slot(i: int) -> Seq<char> {
    if i == 0 {
        "Signature"@
    } else if i == 1 {
        "Encryption"@
    } else if i == 2 {
        "Authentication"@
    } else if i == 3 {
        "Attestation"@
    } else {
        "Unknown"@
    }
}

/// The title of the Admin PIN prompt that sets a touch policy.
pub open spec fn touch_prompt_title(slot: int, value: int) -> Seq<char> {
    "Set Touch Policy — "@ + value_screen_slot(slot) + " → "@ + touch_value_name(value) + " — Admin PIN"@
}

fn touch_value_name_str(i: usize) -> (s: &'static str)
    ensures
        s@ == touch_value_name(i as int),
{
    match i {
        0 => "Off",
        1 => "On",
        2 => "Fixed",
        3 => "Cached",
        _ => "CachedFixed",
    }
}

fn value_screen_slot_str(i: usize) -> (s: &'static str)
    ensures
        s@ == value_screen_slot(i as int),
{
    match i {
        0 => "Signature",
        1 => "Encryption",
        2 => "Authentication",
        3 => "Attestation",
        _ => "Unknown",
    }
}

/// The actions of the touch policy choice screen.
#[derive(Debug, Clone, Copy, PartialEq, Eq, Structural)]
pub enum TouchValueAction {
    ValueUp,
    ValueDown,
    SelectValue,
    Back,
}

/// The screen that picks the touch policy for one slot.
#[derive(Debug)]
pub struct TouchPolicyValueScreen {
    pub slot_index: usize,
    pub value_index: usize,
}

impl TouchPolicyValueScreen {
    /// The highlighted choice is one of the five.
    pub open spec fn wf(&self) -> bool {
        self.value_index < 5
    }

    /// The choices for a slot, with "On" highlighted.
    pub fn new(slot_index: usize) -> (s: Self)
        ensures
            s.slot_index == slot_index,
            s.value_index == 1,
            s.wf(),
    {
        TouchPolicyValueScreen { slot_index, value_index: 1 }
    }

    /// Moves the highlight, or asks for the Admin PIN to set the highlighted choice.
    pub fn on_action(&mut self, action: TouchValueAction) -> (nav: KeysNav)
        requires
            old(self).wf(),
        ensures
            final(self).wf(),
            final(self).slot_index == old(self).slot_index,
            final(self).value_index == (match action {
                TouchValueAction::ValueUp => if old(self).value_index > 0 {
                    old(self).value_index - 1
                } else {
                    old(self).value_index as int
                },
                TouchValueAction::ValueDown => if old(self).value_index < 4 {
                    old(self).value_index + 1
                } else {
                    old(self).value_index as int
                },
                _ => old(self).value_index as int,
            }),
            match action {
                TouchValueAction::SelectValue => nav matches KeysNav::AdminPinPrompt(t)
                    && t@ == touch_prompt_title(old(self).slot_index as int, old(self).value_index as int),
                TouchValueAction::Back => nav is Back,
                _ => nav is Stay,
            },
    {
        match action {
            TouchValueAction::ValueUp => {
                if self.value_index > 0 {
                    self.value_index = self.value_index - 1;
                }
                KeysNav::Stay
            },
            TouchValueAction::ValueDown => {
                if self.value_index < 4 {
                    self.value_index = self.value_index + 1;
                }
                KeysNav::Stay
            },
            TouchValueAction::SelectValue => {
                let mut t = String::from_str("Set Touch Policy — ");
                t.append(value_screen_slot_str(self.slot_index));
                t.append(" → ");
                t.append(touch_value_name_str(self.value_index));
                t.append(" — Admin PIN");
                KeysNav::AdminPinPrompt(t)
            },
            TouchValueAction::Back => KeysNav::Back,
        }
    }
}

/// Whether the card holds a key in touch policy row `i` (the attestation row, 3,
/// always counts as present).
pub open spec fn touch_row_has_key(yk: Option<YubiKeyState>, i: int) -> bool {
    if i == 3 {
        true
    } else {
        match yk {
            Some(y) => match y.openpgp {
                Some(o) => if i == 0 {
                    o.signature_key is Some
                } else if i == 1 {
                    o.encryption_key is Some
                } else {
                    o.authentication_key is Some
                },
                None => false,
            },
            None => false,
        }
    }
}

/// The actions of the touch policy slot screen.
#[derive(Debug, Clone, Copy, PartialEq, Eq, Structural)]
pub enum TouchSlotAction {
    SlotUp,
    SlotDown,
    SelectSlot,
    Back,
}

/// The screen that picks the slot whose touch policy is set.
#[derive(Debug)]
pub struct TouchPolicyScreen {
    pub yubikey_state: Option<YubiKeyState>,
    pub slot_index: usize,
}

impl TouchPolicyScreen {
    /// The highlighted row is one of the four slots.
    pub open spec fn wf(&self) -> bool {
        self.slot_index <= 3
    }

    /// The slot screen with the signature row highlighted.
    pub fn new(yubikey_state: Option<YubiKeyState>) -> (s: Self)
        ensures
            s.yubikey_state == yubikey_state,
            s.slot_index == 0,
            s.wf(),
    {
        TouchPolicyScreen { yubikey_state, slot_index: 0 }
    }

    /// Whether the row shows "[key]" (else "[empty]").
    pub fn slot_has_key(&self, i: usize) -> (b: bool)
        ensures
            b == touch_row_has_key(self.yubikey_state, i as int),
    {
        if i == 3 {
            return true;
        }
        match &self.yubikey_state {
            Some(y) => match &y.openpgp {
                Some(o) => if i == 0 {
                    o.signature_key.is_some()
                } else if i == 1 {
                    o.encryption_key.is_some()
                } else {
                    o.authentication_key.is_some()
                },
                None => false,
            },
            None => false,
        }
    }

    /// Moves the highlight, or opens the choices for the highlighted slot.
    pub fn on_action(&mut self, action: TouchSlotAction) -> (nav: KeysNav)
        requires
            old(self).wf(),
        ensures
            final(self).wf(),
            final(self).yubikey_state == old(self).yubikey_state,
            final(self).slot_index == (match action {
                TouchSlotAction::SlotUp => if old(self).slot_index > 0 {
                    old(self).slot_index - 1
                } else {
                    old(self).slot_index as int
                },
                TouchSlotAction::SlotDown => if old(self).slot_index < 3 {
                    old(self).slot_index + 1
                } else {
                    old(self).slot_index as int
                },
                _ => old(self).slot_index as int,
            }),
            match action {
                TouchSlotAction::SelectSlot => nav matches KeysNav::ChooseTouchValue(i) && i == old(self).slot_index,
                TouchSlotAction::Back => nav is Back,
                _ => nav is Stay,
            },
    {
        match action {
            TouchSlotAction::SlotUp => {
                if self.slot_index > 0 {
                    self.slot_index = self.slot_index - 1;
                }
                KeysNav::Stay
            },
            TouchSlotAction::SlotDown => {
                if self.slot_index < 3 {
                    self.slot_index = self.slot_index + 1;
                }
                KeysNav::Stay
            },
            TouchSlotAction::SelectSlot => KeysNav::ChooseTouchValue(self.slot_index),
            TouchSlotAction::Back => KeysNav::Back,
        }
    }
}

/// The question of the deletion confirmation.
pub open spec fn delete_confirm_body(slot: OpenPgpKeySlot) -> Seq<char> {
    "Permanently delete the "@ + slot.name() + " key?\n\nThis destroys the key material and cannot be undone."@
}

/// The confirmation before one OpenPGP key is deleted.
#[derive(Debug)]
pub struct DeleteKeyScreen {
    pub slot: OpenPgpKeySlot,
    pub admin_pin: String,
    /// The question shown under the "Delete Key Slot" title.
    pub body: String,
}

impl DeleteKeyScreen {
    /// The confirmation for a slot, holding the Admin PIN that was entered.
    pub fn new(slot: OpenPgpKeySlot, admin_pin: String) -> (s: Self)
        ensures
            s.slot == slot,
            s.admin_pin@ == admin_pin@,
            s.body@ == delete_confirm_body(slot),
    {
        let mut body = String::from_str("Permanently delete the ");
        body.append(slot.display_name());
        body.append(" key?\n\nThis destroys the key material and cannot be undone.");
        DeleteKeyScreen { slot, admin_pin, body }
    }

    /// The message that replaces the confirmation once the deletion has run, given
    /// its result (the error's text where it failed).
    pub fn outcome(&self, result: Result<(), String>) -> (nav: KeysNav)
        ensures
            match result {
                Ok(_) => nav matches KeysNav::Popup { title, body } && title@ == "Success"@
                    && body@ == self.slot.name() + " key deleted."@,
                Err(e) => nav matches KeysNav::Popup { title, body } && title@ == "Error"@
                    && body@ == "Delete failed: "@ + e@,
            },
    {
        match result {
            Ok(_) => {
                let mut body = String::from_str(self.slot.display_name());
                body.append(" key deleted.");
                KeysNav::Popup { title: String::from_str("Success"), body }
            },
            Err(e) => {
                let mut body = String::from_str("Delete failed: ");
                body.append(e.as_str());
                KeysNav::Popup { title: String::from_str("Error"), body }
            },
        }
    }
}

/// The Admin PIN entry that comes before a deletion.
#[derive(Debug)]
pub struct PinThenDeleteScreen {
    pub slot: OpenPgpKeySlot,
    pub pin_input: String,
    pub error_message: Option<String>,
}

impl PinThenDeleteScreen {
    /// An empty PIN entry for the slot.
    pub fn new(slot: OpenPgpKeySlot) -> (s: Self)
        ensures
            s.slot == slot,
            s.pin_input@.len() == 0,
            s.error_message is None,
    {
        PinThenDeleteScreen { slot, pin_input: String::new(), error_message: None }
    }

    /// Edits the PIN, cancels, or submits it: an empty PIN is refused with a message,
    /// any other goes on to the deletion's confirmation.
    pub fn on_key(&mut self, key: PinKey) -> (nav: KeysNav)
        ensures
            final(self).slot == old(self).slot,
            final(self).pin_input@ == (match key {
                PinKey::Char(c) => old(self).pin_input@.push(c),
                PinKey::Backspace => backspaced(old(self).pin_input@),
                _ => old(self).pin_input@,
            }),
            match key {
                PinKey::Esc => nav is Back && final(self).error_message == old(self).error_message,
                PinKey::Enter => if old(self).pin_input@.len() == 0 {
                    &&& nav is Stay
                    &&& final(self).error_message matches Some(m)
                    &&& m@ == "Admin PIN cannot be empty"@
                } else {
                    &&& nav matches KeysNav::ConfirmDelete(d)
                    &&& d.slot == old(self).slot
                    &&& d.admin_pin@ == old(self).pin_input@
                    &&& d.body@ == delete_confirm_body(old(self).slot)
                    &&& final(self).error_message == old(self).error_message
                },
                _ => nav is Stay && final(self).error_message == old(self).error_message,
            },
    {
        match key {
            PinKey::Esc => KeysNav::Back,
            PinKey::Backspace => {
                pop_char(&mut self.pin_input);
                KeysNav::Stay
            },
            PinKey::Char(c) => {
                push_char(&mut self.pin_input, c);
                KeysNav::Stay
            },
            PinKey::Enter => {
                if self.pin_input.as_str().unicode_len() == 0 {
                    self.error_message = Some(String::from_str("Admin PIN cannot be empty"));
                    KeysNav::Stay
                } else {
                    let pin = self.pin_input.clone();
                    KeysNav::ConfirmDelete(DeleteKeyScreen::new(self.slot, pin))
                }
            },
            _ => KeysNav::Stay,
        }
    }
}

/// The key slot of a row of the keys screen: signature, encryption, else authentication.
pub open spec fn slot_of_row(i: usize) -> OpenPgpKeySlot {
    if i == 0 {
        OpenPgpKeySlot::Sig
    } else if i == 1 {
        OpenPgpKeySlot::Enc
    } else {
        OpenPgpKeySlot::Aut
    }
}

/// Whether the card is known to hold a key in the slot.
pub open spec fn slot_key_present(yk: Option<YubiKeyState>, slot: OpenPgpKeySlot) -> bool {
    match yk {
        Some(y) => match y.openpgp {
            Some(o) => match slot {
                OpenPgpKeySlot::Sig => o.signature_key is Some,
                OpenPgpKeySlot::Enc => o.encryption_key is Some,
                OpenPgpKeySlot::Aut => o.authentication_key is Some,
            },
            None => false,
        },
        None => false,
    }
}

/// The delete action of the keys screen on the selected row: ask for the Admin PIN
/// where the slot holds a key, else say that there is nothing to delete.
pub fn keys_delete_request(yubikey_state: &Option<YubiKeyState>, selected_index: usize) -> (nav: KeysNav)
    ensures
        if slot_key_present(*yubikey_state, slot_of_row(selected_index)) {
            nav matches KeysNav::AskPinToDelete(s) && s == slot_of_row(selected_index)
        } else {
            nav matches KeysNav::Popup { title, body } && title@ == "No Key"@
                && body@ == "No key in the "@ + slot_of_row(selected_index).name() + " slot to delete."@
        },
{
    let slot = if selected_index == 0 {
        OpenPgpKeySlot::Sig
    } else if selected_index == 1 {
        OpenPgpKeySlot::Enc
    } else {
        OpenPgpKeySlot::Aut
    };
    let present = match yubikey_state {
        Some(y) => match &y.openpgp {
            Some(o) => match slot {
                OpenPgpKeySlot::Sig => o.signature_key.is_some(),
                OpenPgpKeySlot::Enc => o.encryption_key.is_some(),
                OpenPgpKeySlot::Aut => o.authentication_key.is_some(),
            },
            None => false,
        },
        None => false,
    };
    if present {
        KeysNav::AskPinToDelete(slot)
    } else {
        let mut body = String::from_str("No key in the ");
        body.append(slot.display_name());
        body.append(" slot to delete.");
        KeysNav::Popup { title: String::from_str("No Key"), body }
    }
}

/// The text shown where the card has no authentication key.
pub open spec fn no_auth_key_text() -> Seq<char> {
    "No authentication key found on card.\nImport or generate a key first."@
}

/// The export action of the keys screen: the SSH public key with where to add it,
/// shown only where a YubiKey is present.
pub fn keys_export_ssh(yubikey_present: bool, ssh_pubkey: &Option<String>) -> (nav: KeysNav)
    ensures
        nav matches KeysNav::Popup { title, body } && title@ == "SSH Public Key"@ && body@ == (match ssh_pubkey {
            Some(k) => if yubikey_present {
                k@ + "\n\nAdd this key to:\n  - ~/.ssh/authorized_keys on remote servers\n  - GitHub > Settings > SSH Keys\n  - GitLab > Preferences > SSH Keys"@
            } else {
                no_auth_key_text()
            },
            None => no_auth_key_text(),
        }),
{
    let body = match ssh_pubkey {
        Some(k) => if yubikey_present {
            let mut b = String::from_str(k.as_str());
            b.append("\n\nAdd this key to:\n  - ~/.ssh/authorized_keys on remote servers\n  - GitHub > Settings > SSH Keys\n  - GitLab > Preferences > SSH Keys");
            b
        } else {
            String::from_str("No authentication key found on card.\nImport or generate a key first.")
        },
        None => String::from_str("No authentication key found on card.\nImport or generate a key first."),
    };
    KeysNav::Popup { title: String::from_str("SSH Public Key"), body }
}

/// The SSH public key action of the keys screen.
pub fn keys_ssh_pubkey(ssh_pubkey: &Option<String>) -> (nav: KeysNav)
    ensures
        nav matches KeysNav::Popup { title, body } && title@ == "SSH Public Key"@ && body@ == (match ssh_pubkey {
            Some(k) => k@ + "\n\nAdd this key to:\n  - ~/.ssh/authorized_keys\n  - GitHub / GitLab SSH keys"@,
            None => no_auth_key_text(),
        }),
{
    let body = match ssh_pubkey {
        Some(k) => {
            let mut b = String::from_str(k.as_str());
            b.append("\n\nAdd this key to:\n  - ~/.ssh/authorized_keys\n  - GitHub / GitLab SSH keys");
            b
        },
        None => String::from_str("No authentication key found on card.\nImport or generate a key first."),
    };
    KeysNav::Popup { title: String::from_str("SSH Public Key"), body }
}

/// The attestation action of the keys screen.
pub fn keys_attestation(pem: &Option<String>) -> (nav: KeysNav)
    ensures
        nav matches KeysNav::Popup { title, body } && title@ == "Attestation Certificate"@ && body@ == (match pem {
            Some(p) => p@ + "\n\nThis PEM verifies the key was generated on-device."@,
            None => "No attestation certificate available.\nGenerate a key on-device to obtain attestation."@,
        }),
{
    let body = match pem {
        Some(p) => {
            let mut b = String::from_str(p.as_str());
            b.append("\n\nThis PEM verifies the key was generated on-device.");
            b
        },
        None => String::from_str("No attestation certificate available.\nGenerate a key on-device to obtain attestation."),
    };
    KeysNav::Popup { title: String::from_str("Attestation Certificate"), body }
}

/// The pages of the key management screen.
#[derive(Debug, Clone, Copy, PartialEq, Eq, Structural)]
pub enum KeyScreen {
    Main,
    ViewStatus,
    ImportKey,
    ExportSSH,
    KeyAttributes,
    SshPubkeyPopup,
    SetTouchPolicy,
    SetTouchPolicySelect,
    SetTouchPolicyConfirm,
    SetTouchPolicyPinInput,
    KeyGenWizardActive,
    KeyImportRunning,
    KeyImportPinInput,
    KeyOperationResult,
}

/// The algorithm and fingerprint of one OpenPGP key.
#[derive(Debug)]
pub struct SlotAttributes {
    pub algorithm: String,
    pub fingerprint: String,
}

/// The attributes of the three OpenPGP keys, where present.
#[derive(Debug)]
pub struct KeyAttributes {
    pub signature: Option<SlotAttributes>,
    pub encryption: Option<SlotAttributes>,
    pub authentication: Option<SlotAttributes>,
}

/// The key management screen's state.
#[derive(Debug)]
pub struct KeyState {
    pub screen: KeyScreen,
    pub message: Option<String>,
    pub available_keys: Vec<String>,
    pub selected_key_index: usize,
    pub key_attributes: Option<KeyAttributes>,
    pub ssh_pubkey: Option<String>,
    pub touch_slot_index: usize,
    pub touch_policy_index: usize,
    pub attestation_popup: Option<String>,
    pub keygen_wizard: Option<KeyGenWizard>,
    pub operation_status: Option<String>,
    pub progress_tick: usize,
    pub import_result: Option<String>,
}

impl Default for KeyState {
    /// The main page with nothing loaded.
    fn default() -> (s: Self)
        ensures
            s.screen == KeyScreen::Main,
            s.message is None && s.available_keys@.len() == 0 && s.selected_key_index == 0,
            s.key_attributes is None && s.ssh_pubkey is None,
            s.touch_slot_index == 0 && s.touch_policy_index == 0,
            s.attestation_popup is None && s.keygen_wizard is None,
            s.operation_status is None && s.progress_tick == 0 && s.import_result is None,
    {
        KeyState {
            screen: KeyScreen::Main,
            message: None,
            available_keys: Vec::new(),
            selected_key_index: 0,
            key_attributes: None,
            ssh_pubkey: None,
            touch_slot_index: 0,
            touch_policy_index: 0,
            attestation_popup: None,
            keygen_wizard: None,
            operation_status: None,
            progress_tick: 0,
            import_result: None,
        }
    }
}

/// One key's attribute text: `algorithm (fingerprint)`, or `[empty]`.
pub open spec fn slot_attr_text(a: Option<SlotAttributes>) -> Seq<char> {
    match a {
        Some(x) => x.algorithm@ + " ("@ + x.fingerprint@ + ")"@,
        None => "[empty]"@,
    }
}

/// The key attributes popup's text.
pub open spec fn key_attributes_text(a: Option<KeyAttributes>) -> Seq<char> {
    match a {
        Some(k) => "Signature:      "@ + slot_attr_text(k.signature) + "\nEncryption:     "@ + slot_attr_text(
            k.encryption,
        ) + "\nAuthentication: "@ + slot_attr_text(k.authentication),
        None => "Key attributes unavailable. Press K to load."@,
    }
}

fn push_slot_attr(s: &mut String, a: &Option<SlotAttributes>)
    ensures
        final(s)@ == old(s)@ + slot_attr_text(*a),
{
    match a {
        Some(x) => {
            s.append(x.algorithm.as_str());
            s.append(" (");
            s.append(x.fingerprint.as_str());
            s.append(")");
        },
        None => {
            s.append("[empty]");
        },
    }
}

/// The text of the card status detail screen.
pub open spec fn view_status_text() -> Seq<char> {
    "Read card status via native PC/SC.\n\nThis will display all card details including:\n- Key fingerprints\n- Key attributes\n- Cardholder name\n- PIN retry counters"@
}

/// The actions of the key management screen.
#[derive(Debug, Clone, Copy, PartialEq, Eq, Structural)]
pub enum KeysAction {
    GenerateKey,
    ImportKey,
    DeleteKey,
    Refresh,
    ViewStatus,
    ExportSsh,
    KeyAttributes,
    TouchPolicy,
    SshPubkey,
    Attestation,
    Back,
    Help,
}

/// The key management screen: the device and what has been loaded about its keys.
#[derive(Debug)]
pub struct KeysScreen {
    pub yubikey_state: Option<YubiKeyState>,
    pub state: KeyState,
}

impl KeysScreen {
    /// The screen on its main page.
    pub fn new(yubikey_state: Option<YubiKeyState>) -> (s: Self)
        ensures
            s.yubikey_state == yubikey_state,
            s.state.screen == KeyScreen::Main,
            s.state.selected_key_index == 0,
            s.state.key_attributes is None && s.state.ssh_pubkey is None && s.state.attestation_popup is None,
    {
        KeysScreen { yubikey_state, state: KeyState::default() }
    }

    /// What an action asks for: generation opens the wizard (its backup file
    /// named after `today`); delete asks for the Admin PIN where the selected slot
    /// holds a key; the export, key, attribute and attestation actions show their
    /// popups; the others open their screens, refresh, close or show help.
    pub fn on_action(&self, action: KeysAction) -> (nav: KeysNav)
        ensures
            match action {
                KeysAction::GenerateKey => nav matches KeysNav::LaunchKeyGen(w) && w.step == KeyGenStep::Algorithm
                    && w.algorithm_index == 0 && w.expiry_index == 0 && w.active_field == 0
                    && w.custom_expiry@.len() == 0 && w.name@.len() == 0 && w.email@.len() == 0 && !w.backup
                    && !w.editing_path && !w.editing_custom_expiry && w.backup_path@
                    == "~/yubikey-backup-today.gpg"@,
                KeysAction::ImportKey => nav is OpenImport,
                KeysAction::DeleteKey => if slot_key_present(self.yubikey_state, slot_of_row(self.state.selected_key_index)) {
                    nav matches KeysNav::AskPinToDelete(s) && s == slot_of_row(self.state.selected_key_index)
                } else {
                    nav matches KeysNav::Popup { title, body } && title@ == "No Key"@ && body@ == "No key in the "@
                        + slot_of_row(self.state.selected_key_index).name() + " slot to delete."@
                },
                KeysAction::Refresh => nav is Refresh,
                KeysAction::ViewStatus => nav matches KeysNav::ShowDetail(d) && d.title@ == "View Card Status"@
                    && d.body@ == view_status_text(),
                KeysAction::ExportSsh => nav matches KeysNav::Popup { title, body } && title@ == "SSH Public Key"@
                    && body@ == (match self.state.ssh_pubkey {
                    Some(k) => if self.yubikey_state is Some {
                        k@ + "\n\nAdd this key to:\n  - ~/.ssh/authorized_keys on remote servers\n  - GitHub > Settings > SSH Keys\n  - GitLab > Preferences > SSH Keys"@
                    } else {
                        no_auth_key_text()
                    },
                    None => no_auth_key_text(),
                }),
                KeysAction::KeyAttributes => nav matches KeysNav::Popup { title, body } && title@ == "Key Attributes"@
                    && body@ == key_attributes_text(self.state.key_attributes),
                KeysAction::TouchPolicy => nav is OpenTouchPolicy,
                KeysAction::SshPubkey => nav matches KeysNav::Popup { title, body } && title@ == "SSH Public Key"@
                    && body@ == (match self.state.ssh_pubkey {
                    Some(k) => k@ + "\n\nAdd this key to:\n  - ~/.ssh/authorized_keys\n  - GitHub / GitLab SSH keys"@,
                    None => no_auth_key_text(),
                }),
                KeysAction::Attestation => nav matches KeysNav::Popup { title, body } && title@
                    == "Attestation Certificate"@ && body@ == (match self.state.attestation_popup {
                    Some(p) => p@ + "\n\nThis PEM verifies the key was generated on-device."@,
                    None => "No attestation certificate available.\nGenerate a key on-device to obtain attestation."@,
                }),
                KeysAction::Back => nav is Back,
                KeysAction::Help => nav is Help,
            },
    {
        match action {
            KeysAction::GenerateKey => {
                let w = KeyGenWizard::new("today");
                proof {
                    reveal_strlit("today");
                    reveal_strlit("~/yubikey-backup-");
                    reveal_strlit(".gpg");
                    reveal_strlit("~/yubikey-backup-today.gpg");
                }
                assert(w.backup_path@ =~= "~/yubikey-backup-today.gpg"@);
                KeysNav::LaunchKeyGen(w)
            },
            KeysAction::ImportKey => KeysNav::OpenImport,
            KeysAction::DeleteKey => keys_delete_request(&self.yubikey_state, self.state.selected_key_index),
            KeysAction::Refresh => KeysNav::Refresh,
            KeysAction::ViewStatus => KeysNav::ShowDetail(
                KeyDetailScreen::new(
                    String::from_str("View Card Status"),
                    String::from_str(
                        "Read card status via native PC/SC.\n\nThis will display all card details including:\n- Key fingerprints\n- Key attributes\n- Cardholder name\n- PIN retry counters",
                    ),
                ),
            ),
            KeysAction::ExportSsh => keys_export_ssh(self.yubikey_state.is_some(), &self.state.ssh_pubkey),
            KeysAction::KeyAttributes => {
                let body = match &self.state.key_attributes {
                    Some(k) => {
                        let mut b = String::from_str("Signature:      ");
                        push_slot_attr(&mut b, &k.signature);
                        b.append("\nEncryption:     ");
                        push_slot_attr(&mut b, &k.encryption);
                        b.append("\nAuthentication: ");
                        push_slot_attr(&mut b, &k.authentication);
                        b
                    },
                    None => String::from_str("Key attributes unavailable. Press K to load."),
                };
                KeysNav::Popup { title: String::from_str("Key Attributes"), body }
            },
            KeysAction::TouchPolicy => KeysNav::OpenTouchPolicy,
            KeysAction::SshPubkey => keys_ssh_pubkey(&self.state.ssh_pubkey),
            KeysAction::Attestation => keys_attestation(&self.state.attestation_popup),
            KeysAction::Back => KeysNav::Back,
            KeysAction::Help => KeysNav::Help,
        }
    }
}

/// The actions of the key import screen.
#[derive(Debug, Clone, Copy, PartialEq, Eq, Structural)]
pub enum ImportAction {
    ConfirmImport,
    Back,
}

/// The key import screen: the keyring's keys, one of them highlighted.
#[derive(Debug)]
pub struct ImportKeyScreen {
    pub yubikey_state: Option<YubiKeyState>,
    pub available_keys: Vec<String>,
    pub selected_index: usize,
}

impl ImportKeyScreen {
    /// An import screen with no keys listed yet.
    pub fn new(yubikey_state: Option<YubiKeyState>) -> (s: Self)
        ensures
            s.yubikey_state == yubikey_state,
            s.available_keys@.len() == 0,
            s.selected_index == 0,
    {
        ImportKeyScreen { yubikey_state, available_keys: Vec::new(), selected_index: 0 }
    }

    /// Enter asks for the Admin PIN to import; escape closes the screen.
    pub fn on_action(&self, action: ImportAction) -> (nav: KeysNav)
        ensures
            match action {
                ImportAction::ConfirmImport => nav matches KeysNav::AdminPinPrompt(t)
                    && t@ == "Import Key — Admin PIN"@,
                ImportAction::Back => nav is Back,
            },
    {
        match action {
            ImportAction::ConfirmImport => KeysNav::AdminPinPrompt(String::from_str("Import Key — Admin PIN")),
            ImportAction::Back => KeysNav::Back,
        }
    }
}

/// A screen that describes one card operation.
#[derive(Debug)]
pub struct KeyDetailScreen {
    pub title: String,
    pub body: String,
}

impl KeyDetailScreen {
    /// The screen with its title and text.
    pub fn new(title: String, body: String) -> (s: Self)
        ensures
            s.title@ == title@,
            s.body@ == body@,
    {
        KeyDetailScreen { title, body }
    }
}

/// The spinner frame for a tick: `|`, `/`, `-`, `\` in turn.
pub open spec fn spinner_frame(tick: usize) -> char {
    let k = tick % 4;
    if k == 0 {
        '|'
    } else if k == 1 {
        '/'
    } else if k == 2 {
        '-'
    } else {
        '\\'
    }
}

/// A spinner with a title and a status line.
#[derive(Debug)]
pub struct ProgressLabel {
    pub title: String,
    pub status: String,
    pub tick: usize,
}

impl ProgressLabel {
    /// The label with its title, status and animation tick.
    pub fn new(title: String, status: String, tick: usize) -> (s: Self)
        ensures
            s.title@ == title@,
            s.status@ == status@,
            s.tick == tick,
    {
        ProgressLabel { title, status, tick }
    }

    /// The status line: the spinner frame, a space, the status.
    pub fn status_line(&self) -> (s: String)
        ensures
            s@ == seq![spinner_frame(self.tick), ' '] + self.status@,
    {
        let k = self.tick % 4;
        let c = if k == 0 {
            '|'
        } else if k == 1 {
            '/'
        } else if k == 2 {
            '-'
        } else {
            '\\'
        };
        let mut s = String::new();
        push_char(&mut s, c);
        push_char(&mut s, ' ');
        s.append(self.status.as_str());
        assert(s@ =~= seq![spinner_frame(self.tick), ' '] + self.status@);
        s
    }
}

} // verus!
