//! The PIN management screens: the PIN operation forms, the unblock wizard and
//! which recovery paths it offers.
use vstd::prelude::*;
use vstd::string::*;
use crate::model::pin::PinStatus;
use crate::model::pin_operations::{string_views, PinOperationResult};
use crate::model::YubiKeyState;
use crate::text::{decimal, push_decimal};
use crate::tui::keys::push_line;
use crate::tui::widgets::pin_input::{edit, edited, PinKey};

verus! {

/// Ways to recover a blocked User PIN.
#[derive(Debug, Clone, Copy, PartialEq, Eq, Structural)]
pub enum UnblockPath {
    ResetCode,
    AdminPin,
    FactoryReset,
}

/// The paths the unblock wizard offers, in order: the Reset Code while it has
/// retries, the Admin PIN while it has retries, and a factory reset once the
/// Admin PIN is blocked.
pub open spec fn unblock_paths(pin: PinStatus) -> Seq<UnblockPath> {
    (if pin.reset_code_retries > 0 {
        seq![UnblockPath::ResetCode]
    } else {
        Seq::empty()
    }) + (if pin.admin_pin_retries > 0 {
        seq![UnblockPath::AdminPin]
    } else {
        Seq::empty()
    }) + (if pin.admin_pin_retries == 0 {
        seq![UnblockPath::FactoryReset]
    } else {
        Seq::empty()
    })
}

/// Which recovery paths are offered follows the counters alone: the Admin PIN
/// path exactly while the Admin PIN has retries and the factory reset exactly
/// once it has none, whatever the Reset Code counter; the Reset Code path exactly
/// while it has retries. So some path is always offered, and the key-destroying
/// reset never while the Admin PIN can still unblock.
pub proof fn lemma_unblock_paths_follow_counters(pin: PinStatus)
    ensures
        unblock_paths(pin).contains(UnblockPath::AdminPin) <==> pin.admin_pin_retries > 0,
        unblock_paths(pin).contains(UnblockPath::FactoryReset) <==> pin.admin_pin_retries == 0,
        unblock_paths(pin).contains(UnblockPath::ResetCode) <==> pin.reset_code_retries > 0,
        unblock_paths(pin).len() >= 1,
{
    let a: Seq<UnblockPath> = if pin.reset_code_retries > 0 { seq![UnblockPath::ResetCode] } else { Seq::empty() };
    let b: Seq<UnblockPath> = if pin.admin_pin_retries > 0 { seq![UnblockPath::AdminPin] } else { Seq::empty() };
    let c: Seq<UnblockPath> = if pin.admin_pin_retries == 0 { seq![UnblockPath::FactoryReset] } else { Seq::empty() };
    let r = unblock_paths(pin);
    assert(r == a + b + c);
    assert forall|p: UnblockPath| r.contains(p) <==> (a.contains(p) || b.contains(p) || c.contains(p)) by {
        if r.contains(p) {
            let k = choose|k: int| 0 <= k < r.len() && r[k] == p;
            if k < a.len() {
                assert(a[k] == p);
            } else if k < a.len() + b.len() {
                assert(b[k - a.len()] == p);
            } else {
                assert(c[k - a.len() - b.len()] == p);
            }
        }
        if a.contains(p) {
            let k = choose|k: int| 0 <= k < a.len() && a[k] == p;
            assert(r[k] == p);
        }
        if b.contains(p) {
            let k = choose|k: int| 0 <= k < b.len() && b[k] == p;
            assert(r[a.len() + k] == p);
        }
        if c.contains(p) {
            let k = choose|k: int| 0 <= k < c.len() && c[k] == p;
            assert(r[a.len() + b.len() + k] == p);
        }
    }
    if pin.admin_pin_retries > 0 {
        assert(b.contains(UnblockPath::AdminPin)) by { assert(b[0] == UnblockPath::AdminPin); }
    } else {
        assert(c.contains(UnblockPath::FactoryReset)) by { assert(c[0] == UnblockPath::FactoryReset); }
    }
    if pin.reset_code_retries > 0 {
        assert(a.contains(UnblockPath::ResetCode)) by { assert(a[0] == UnblockPath::ResetCode); }
    }
}

/// The recovery paths for these counters (see [`unblock_paths`]).
pub fn available_unblock_paths(pin: &PinStatus) -> (r: Vec<UnblockPath>)
    ensures
        r@ == unblock_paths(*pin),
{
    let mut r: Vec<UnblockPath> = Vec::new();
    if pin.reset_code_retries > 0 {
        r.push(UnblockPath::ResetCode);
    }
    if pin.admin_pin_retries > 0 {
        r.push(UnblockPath::AdminPin);
    }
    if pin.admin_pin_retries == 0 {
        r.push(UnblockPath::FactoryReset);
    }
    assert(r@ =~= unblock_paths(*pin));
    r
}

/// The parts joined with `sep` between them (`[String]::join`).
pub open spec fn joined(parts: Seq<Seq<char>>, sep: Seq<char>) -> Seq<char>
    decreases parts.len(),
{
    if parts.len() == 0 {
        Seq::empty()
    } else if parts.len() == 1 {
        parts[0]
    } else {
        joined(parts.drop_last(), sep) + sep + parts.last()
    }
}

/// Joins the strings with `sep` between them.
pub fn join_strings(parts: &Vec<String>, sep: &str) -> (s: String)
    ensures
        s@ == joined(string_views(parts@), sep@),
{
    let mut s = String::new();
    let mut i: usize = 0;
    while i < parts.len()
        invariant
            i <= parts@.len(),
            s@ == joined(string_views(parts@.take(i as int)), sep@),
        decreases parts@.len() - i,
    {
        assert(string_views(parts@.take(i as int + 1)).drop_last() =~= string_views(parts@.take(i as int)));
        if i > 0 {
            s.append(sep);
        }
        s.append(parts[i].as_str());
        i = i + 1;
        assert(string_views(parts@.take(i as int)).last() == parts@[i - 1]@);
    }
    assert(parts@.take(parts@.len() as int) =~= parts@);
    s
}

/// The PIN operations of the management screen.
#[derive(Debug, Clone, Copy, PartialEq, Eq, Structural)]
pub enum PinOperation {
    ChangeUserPin,
    ChangeAdminPin,
    SetResetCode,
}

/// The title of an operation's form.
pub open spec fn operation_title(op: PinOperation) -> Seq<char> {
    match op {
        PinOperation::ChangeUserPin => "Change User PIN"@,
        PinOperation::ChangeAdminPin => "Change Admin PIN"@,
        PinOperation::SetResetCode => "Set Reset Code"@,
    }
}

/// The labels of an operation's three fields.
pub open spec fn operation_labels(op: PinOperation) -> Seq<Seq<char>> {
    match op {
        PinOperation::ChangeUserPin => seq!["Current PIN"@, "New PIN"@, "Confirm New PIN"@],
        PinOperation::ChangeAdminPin => seq!["Current Admin PIN"@, "New Admin PIN"@, "Confirm Admin PIN"@],
        PinOperation::SetResetCode => seq!["Admin PIN"@, "New Reset Code"@, "Confirm Reset Code"@],
    }
}

/// What a PIN operation form asks for.
#[derive(Debug)]
pub enum PinOperationNav {
    Stay,
    Cancel,
    /// Run the operation with the PIN that authorises it and the new value.
    Run { operation: PinOperation, current: String, new: String },
    /// Close the form and show a message.
    Done { title: String, body: String },
}

/// A form for one PIN operation: the authorising PIN, the new value, its
/// confirmation.
#[derive(Debug)]
pub struct PinOperationScreen {
    pub operation: PinOperation,
    pub fields: Vec<String>,
    pub field_labels: Vec<&'static str>,
    pub active_field: usize,
    pub error_message: Option<String>,
}

/// The views of static labels.
pub open spec fn label_views(s: Seq<&'static str>) -> Seq<Seq<char>> {
    s.map_values(|x: &'static str| x@)
}

impl PinOperationScreen {
    /// Three fields, one of them active.
    pub open spec fn wf(&self) -> bool {
        self.fields@.len() == 3 && self.active_field < 3
    }

    fn with_labels(operation: PinOperation, a: &'static str, b: &'static str, c: &'static str) -> (s: Self)
        ensures
            s.wf(),
            s.operation == operation,
            label_views(s.field_labels@) == seq![a@, b@, c@],
            string_views(s.fields@) == seq![Seq::<char>::empty(), Seq::<char>::empty(), Seq::<char>::empty()],
            s.active_field == 0,
            s.error_message is None,
    {
        let fields = vec![String::new(), String::new(), String::new()];
        let field_labels = vec![a, b, c];
        let s = PinOperationScreen { operation, fields, field_labels, active_field: 0, error_message: None };
        assert(label_views(s.field_labels@) =~= seq![a@, b@, c@]);
        assert(string_views(s.fields@) =~= seq![Seq::<char>::empty(), Seq::<char>::empty(), Seq::<char>::empty()]);
        s
    }

    /// The form that changes the User PIN.
    pub fn change_user_pin() -> (s: Self)
        ensures
            s.wf(),
            s.operation == PinOperation::ChangeUserPin,
            label_views(s.field_labels@) == operation_labels(PinOperation::ChangeUserPin),
            string_views(s.fields@) == seq![Seq::<char>::empty(), Seq::<char>::empty(), Seq::<char>::empty()],
            s.active_field == 0,
            s.error_message is None,
    {
        Self::with_labels(PinOperation::ChangeUserPin, "Current PIN", "New PIN", "Confirm New PIN")
    }

    /// The form that changes the Admin PIN.
    pub fn change_admin_pin() -> (s: Self)
        ensures
            s.wf(),
            s.operation == PinOperation::ChangeAdminPin,
            label_views(s.field_labels@) == operation_labels(PinOperation::ChangeAdminPin),
            string_views(s.fields@) == seq![Seq::<char>::empty(), Seq::<char>::empty(), Seq::<char>::empty()],
            s.active_field == 0,
            s.error_message is None,
    {
        Self::with_labels(PinOperation::ChangeAdminPin, "Current Admin PIN", "New Admin PIN", "Confirm Admin PIN")
    }

    /// The form that sets the Reset Code.
    pub fn set_reset_code() -> (s: Self)
        ensures
            s.wf(),
            s.operation == PinOperation::SetResetCode,
            label_views(s.field_labels@) == operation_labels(PinOperation::SetResetCode),
            string_views(s.fields@) == seq![Seq::<char>::empty(), Seq::<char>::empty(), Seq::<char>::empty()],
            s.active_field == 0,
            s.error_message is None,
    {
        Self::with_labels(PinOperation::SetResetCode, "Admin PIN", "New Reset Code", "Confirm Reset Code")
    }

    /// The form's title.
    pub fn title(&self) -> (t: &'static str)
        ensures
            t@ == operation_title(self.operation),
    {
        match self.operation {
            PinOperation::ChangeUserPin => "Change User PIN",
            PinOperation::ChangeAdminPin => "Change Admin PIN",
            PinOperation::SetResetCode => "Set Reset Code",
        }
    }

    /// Checks the fields: all are needed, and the new value must match its
    /// confirmation (else the confirmation is emptied); then the operation is asked for.
    pub fn submit(&mut self) -> (nav: PinOperationNav)
        requires
            old(self).wf(),
        ensures
            final(self).wf(),
            final(self).operation == old(self).operation,
            final(self).active_field == old(self).active_field,
            final(self).field_labels@ == old(self).field_labels@,
            final(self).fields@[0]@ == old(self).fields@[0]@,
            final(self).fields@[1]@ == old(self).fields@[1]@,
            if old(self).fields@[0]@.len() == 0 || old(self).fields@[1]@.len() == 0 || old(self).fields@[2]@.len() == 0 {
                &&& nav is Stay
                &&& final(self).error_message matches Some(e) && e@ == "All fields are required."@
                &&& final(self).fields@[2]@ == old(self).fields@[2]@
            } else if old(self).fields@[1]@ != old(self).fields@[2]@ {
                &&& nav is Stay
                &&& final(self).error_message matches Some(e) && e@ == "New values do not match. Try again."@
                &&& final(self).fields@[2]@.len() == 0
            } else {
                &&& nav matches PinOperationNav::Run { operation, current, new }
                &&& operation == old(self).operation
                &&& current@ == old(self).fields@[0]@ && new@ == old(self).fields@[1]@
                &&& final(self).fields@[2]@ == old(self).fields@[2]@
                &&& final(self).error_message == old(self).error_message
            },
    {
        let a = self.fields[0].as_str().unicode_len();
        let b = self.fields[1].as_str().unicode_len();
        let c = self.fields[2].as_str().unicode_len();
        if a == 0 || b == 0 || c == 0 {
            self.error_message = Some(String::from_str("All fields are required."));
            PinOperationNav::Stay
        } else if self.fields[1] != self.fields[2] {
            self.error_message = Some(String::from_str("New values do not match. Try again."));
            self.fields.set(2, String::new());
            PinOperationNav::Stay
        } else {
            PinOperationNav::Run {
                operation: self.operation,
                current: self.fields[0].clone(),
                new: self.fields[1].clone(),
            }
        }
    }

    /// Edits the active field; tab and back-tab cycle through the three fields;
    /// enter submits.
    pub fn on_key(&mut self, key: PinKey) -> (nav: PinOperationNav)
        requires
            old(self).wf(),
        ensures
            final(self).wf(),
            final(self).operation == old(self).operation,
            match key {
                PinKey::Esc => nav is Cancel && final(self).active_field == old(self).active_field
                    && string_views(final(self).fields@) == string_views(old(self).fields@),
                PinKey::Tab => nav is Stay && final(self).active_field == (old(self).active_field + 1) % 3
                    && string_views(final(self).fields@) == string_views(old(self).fields@),
                PinKey::BackTab => nav is Stay && final(self).active_field == (if old(self).active_field == 0 {
                    2
                } else {
                    old(self).active_field - 1
                }) && string_views(final(self).fields@) == string_views(old(self).fields@),
                PinKey::Char(_) | PinKey::Backspace => nav is Stay && final(self).active_field
                    == old(self).active_field && string_views(final(self).fields@) == string_views(
                    old(self).fields@,
                ).update(old(self).active_field as int, edited(old(self).fields@[old(self).active_field as int]@, key)),
                PinKey::Enter => final(self).active_field == old(self).active_field,
                PinKey::Other => nav is Stay && final(self).active_field == old(self).active_field
                    && string_views(final(self).fields@) == string_views(old(self).fields@),
            },
    {
        match key {
            PinKey::Esc => PinOperationNav::Cancel,
            PinKey::Tab => {
                self.active_field = (self.active_field + 1) % 3;
                PinOperationNav::Stay
            },
            PinKey::BackTab => {
                self.active_field = if self.active_field == 0 {
                    2
                } else {
                    self.active_field - 1
                };
                PinOperationNav::Stay
            },
            PinKey::Char(_) | PinKey::Backspace => {
                let i = self.active_field;
                let mut f = self.fields[i].clone();
                edit(&mut f, key);
                self.fields.set(i, f);
                assert(string_views(self.fields@) =~= string_views(old(self).fields@).update(
                    i as int,
                    edited(old(self).fields@[i as int]@, key),
                ));
                PinOperationNav::Stay
            },
            PinKey::Enter => self.submit(),
            PinKey::Other => PinOperationNav::Stay,
        }
    }

    /// The operation's result: a success closes the form with its messages, one
    /// per line; a failure shows its messages joined by "; " (or the error) and
    /// empties the fields.
    pub fn on_result(&mut self, result: Result<PinOperationResult, String>) -> (nav: PinOperationNav)
        requires
            old(self).wf(),
        ensures
            final(self).wf(),
            final(self).operation == old(self).operation,
            match result {
                Ok(r) => if r.success {
                    nav matches PinOperationNav::Done { title, body } && title@ == "Success"@
                        && body@ == joined(string_views(r.messages@), "\n"@)
                } else {
                    &&& nav is Stay
                    &&& final(self).error_message matches Some(e) && e@ == joined(string_views(r.messages@), "; "@)
                    &&& final(self).active_field == 0
                    &&& string_views(final(self).fields@) == seq![Seq::<char>::empty(), Seq::<char>::empty(), Seq::<char>::empty()]
                },
                Err(e) => {
                    &&& nav is Stay
                    &&& final(self).error_message matches Some(m) && m@ == e@
                    &&& final(self).active_field == 0
                    &&& string_views(final(self).fields@) == seq![Seq::<char>::empty(), Seq::<char>::empty(), Seq::<char>::empty()]
                },
            },
    {
        match result {
            Ok(r) => {
                if r.success {
                    return PinOperationNav::Done {
                        title: String::from_str("Success"),
                        body: join_strings(&r.messages, "\n"),
                    };
                }
                self.error_message = Some(join_strings(&r.messages, "; "));
            },
            Err(e) => {
                self.error_message = Some(e);
            },
        }
        self.fields = vec![String::new(), String::new(), String::new()];
        self.active_field = 0;
        assert(string_views(self.fields@) =~= seq![Seq::<char>::empty(), Seq::<char>::empty(), Seq::<char>::empty()]);
        PinOperationNav::Stay
    }
}

/// The PIN management screen's key bindings.
#[derive(Debug, Clone, Copy, PartialEq, Eq, Structural)]
pub enum PinMgmtAction {
    ChangeUserPin,
    ChangeAdminPin,
    SetResetCode,
    UnblockPin,
    Back,
    Help,
}

/// Where the PIN management screen sends the user.
#[derive(Debug)]
pub enum PinMgmtNav {
    Stay,
    Back,
    Help,
    Operation(PinOperationScreen),
    /// The unblock wizard for the key on this screen.
    Unblock,
}

/// The PIN management screen.
#[derive(Debug)]
pub struct PinManagementScreen {
    pub yubikey_state: Option<YubiKeyState>,
    pub state: PinState,
}

/// The pages of the PIN management screen.
#[derive(Debug, Clone, Copy, PartialEq, Eq, Structural)]
pub enum PinScreen {
    Main,
    ChangeUserPin,
    ChangeAdminPin,
    SetResetCode,
    UnblockUserPin,
    UnblockWizardCheck,
    UnblockWizardWithReset,
    UnblockWizardWithAdmin,
    UnblockWizardFactoryReset,
    PinInputActive,
    OperationRunning,
    OperationResult,
}

/// The PIN management screen's state.
#[derive(Debug)]
pub struct PinState {
    pub screen: PinScreen,
    pub message: Option<String>,
    pub unblock_path: Option<UnblockPath>,
    pub confirm_factory_reset: bool,
    pub operation_running: bool,
    pub operation_status: Option<String>,
    pub progress_tick: usize,
    pub pending_operation: Option<PinScreen>,
}

impl Default for PinState {
    /// The main page, nothing running.
    fn default() -> (s: Self)
        ensures
            s.screen == PinScreen::Main,
            s.message is None && s.unblock_path is None,
            !s.confirm_factory_reset && !s.operation_running,
            s.operation_status is None && s.progress_tick == 0 && s.pending_operation is None,
    {
        PinState {
            screen: PinScreen::Main,
            message: None,
            unblock_path: None,
            confirm_factory_reset: false,
            operation_running: false,
            operation_status: None,
            progress_tick: 0,
            pending_operation: None,
        }
    }
}

impl PinManagementScreen {
    /// The screen for a key.
    pub fn new(yubikey_state: Option<YubiKeyState>) -> (s: Self)
        ensures
            s.yubikey_state == yubikey_state,
            s.state.screen == PinScreen::Main,
    {
        PinManagementScreen { yubikey_state, state: PinState::default() }
    }

    /// The operation forms, the unblock wizard, help, or back.
    pub fn on_action(&self, action: PinMgmtAction) -> (nav: PinMgmtNav)
        ensures
            match action {
                PinMgmtAction::ChangeUserPin => nav matches PinMgmtNav::Operation(f) && f.wf() && f.operation
                    == PinOperation::ChangeUserPin && f.active_field == 0,
                PinMgmtAction::ChangeAdminPin => nav matches PinMgmtNav::Operation(f) && f.wf() && f.operation
                    == PinOperation::ChangeAdminPin && f.active_field == 0,
                PinMgmtAction::SetResetCode => nav matches PinMgmtNav::Operation(f) && f.wf() && f.operation
                    == PinOperation::SetResetCode && f.active_field == 0,
                PinMgmtAction::UnblockPin => nav is Unblock,
                PinMgmtAction::Back => nav is Back,
                PinMgmtAction::Help => nav is Help,
            },
    {
        match action {
            PinMgmtAction::ChangeUserPin => PinMgmtNav::Operation(PinOperationScreen::change_user_pin()),
            PinMgmtAction::ChangeAdminPin => PinMgmtNav::Operation(PinOperationScreen::change_admin_pin()),
            PinMgmtAction::SetResetCode => PinMgmtNav::Operation(PinOperationScreen::set_reset_code()),
            PinMgmtAction::UnblockPin => PinMgmtNav::Unblock,
            PinMgmtAction::Back => PinMgmtNav::Back,
            PinMgmtAction::Help => PinMgmtNav::Help,
        }
    }
}

/// The unblock wizard's actions.
#[derive(Debug, Clone, Copy, PartialEq, Eq, Structural)]
pub enum UnblockAction {
    Back,
    UnblockWithReset,
    UnblockWithAdmin,
    FactoryReset,
}

/// Where the unblock wizard sends the user.
#[derive(Debug)]
pub enum UnblockNav {
    Back,
    /// A PIN form with this title and these field labels.
    PinForm { title: String, labels: Vec<String> },
    /// The confirmation of a factory reset, with its title and warning.
    ConfirmFactoryReset { title: String, body: String },
}

/// The warning before a factory reset.
pub open spec fn factory_reset_warning() -> Seq<char> {
    "THIS WILL PERMANENTLY DELETE all GPG keys, certificates, and cardholder data.\nDefault PINs will be restored (User: 123456, Admin: 12345678).\nAre you ABSOLUTELY sure?"@
}

/// The answers to the factory reset warning (Escape and q cancel, y confirms).
#[derive(Debug, Clone, Copy, PartialEq, Eq, Structural)]
pub enum FactoryResetAction {
    Cancel,
    ConfirmReset,
}

/// How the factory reset warning closed; the reset itself is the caller's.
#[derive(Debug, Clone, Copy, PartialEq, Eq, Structural)]
pub enum FactoryResetNav {
    Cancelled,
    Confirmed,
}

/// The warning shown when both the Admin PIN and the reset code are exhausted:
/// only a factory reset recovers the OpenPGP applet.
#[derive(Debug, Clone, Copy, PartialEq, Eq, Structural)]
pub struct FactoryResetScreen;

impl FactoryResetScreen {
    /// The warning.
    pub fn new() -> (s: Self)
        ensures
            s == FactoryResetScreen,
    {
        FactoryResetScreen
    }

    /// Either answer closes the warning, saying which it was.
    pub fn on_action(&self, action: FactoryResetAction) -> (nav: FactoryResetNav)
        ensures
            nav == match action {
                FactoryResetAction::Cancel => FactoryResetNav::Cancelled,
                FactoryResetAction::ConfirmReset => FactoryResetNav::Confirmed,
            },
    {
        match action {
            FactoryResetAction::Cancel => FactoryResetNav::Cancelled,
            FactoryResetAction::ConfirmReset => FactoryResetNav::Confirmed,
        }
    }
}

/// The unblock wizard.
#[derive(Debug)]
pub struct UnblockWizardScreen {
    pub yubikey_state: Option<YubiKeyState>,
}

impl UnblockWizardScreen {
    /// The wizard for a key.
    pub fn new(yubikey_state: Option<YubiKeyState>) -> (s: Self)
        ensures
            s.yubikey_state == yubikey_state,
    {
        UnblockWizardScreen { yubikey_state }
    }

    /// The recovery paths to offer (none without a key; see [`unblock_paths`]).
    pub fn paths(&self) -> (r: Vec<UnblockPath>)
        ensures
            r@ == (match self.yubikey_state {
                Some(y) => unblock_paths(y.pin_status),
                None => Seq::empty(),
            }),
    {
        match &self.yubikey_state {
            Some(y) => available_unblock_paths(&y.pin_status),
            None => Vec::new(),
        }
    }

    /// The chosen recovery path's form, or the factory reset's confirmation.
    pub fn on_action(&self, action: UnblockAction) -> (nav: UnblockNav)
        ensures
            match action {
                UnblockAction::Back => nav is Back,
                UnblockAction::UnblockWithReset => nav matches UnblockNav::PinForm { title, labels }
                    && title@ == "Unblock with Reset Code"@ && string_views(labels@) == seq![
                    "Reset Code"@,
                    "New User PIN"@,
                    "Confirm New PIN"@,
                ],
                UnblockAction::UnblockWithAdmin => nav matches UnblockNav::PinForm { title, labels }
                    && title@ == "Unblock with Admin PIN"@ && string_views(labels@) == seq![
                    "Admin PIN"@,
                    "New User PIN"@,
                    "Confirm New PIN"@,
                ],
                UnblockAction::FactoryReset => nav matches UnblockNav::ConfirmFactoryReset { title, body }
                    && title@ == "Confirm Factory Reset"@ && body@ == factory_reset_warning(),
            },
    {
        match action {
            UnblockAction::Back => UnblockNav::Back,
            UnblockAction::UnblockWithReset => {
                let labels = vec![
                    String::from_str("Reset Code"),
                    String::from_str("New User PIN"),
                    String::from_str("Confirm New PIN"),
                ];
                assert(string_views(labels@) =~= seq!["Reset Code"@, "New User PIN"@, "Confirm New PIN"@]);
                UnblockNav::PinForm { title: String::from_str("Unblock with Reset Code"), labels }
            },
            UnblockAction::UnblockWithAdmin => {
                let labels = vec![
                    String::from_str("Admin PIN"),
                    String::from_str("New User PIN"),
                    String::from_str("Confirm New PIN"),
                ];
                assert(string_views(labels@) =~= seq!["Admin PIN"@, "New User PIN"@, "Confirm New PIN"@]);
                UnblockNav::PinForm { title: String::from_str("Unblock with Admin PIN"), labels }
            },
            UnblockAction::FactoryReset => UnblockNav::ConfirmFactoryReset {
                title: String::from_str("Confirm Factory Reset"),
                body: String::from_str(
                    "THIS WILL PERMANENTLY DELETE all GPG keys, certificates, and cardholder data.\nDefault PINs will be restored (User: 123456, Admin: 12345678).\nAre you ABSOLUTELY sure?",
                ),
            },
        }
    }
}

/// How the PIN status card is coloured.
#[derive(Debug, Clone, Copy, PartialEq, Eq, Structural)]
pub enum PinCardLevel {
    Normal,
    Warn,
    Error,
}

/// The line of one PIN: blocked, a warning at one retry or less, else working.
pub open spec fn pin_status_line(
    name: Seq<char>,
    blocked: bool,
    retries: u8,
    blocked_text: Seq<char>,
) -> Seq<char> {
    if blocked {
        name + ": Blocked — "@ + blocked_text
    } else if retries <= 1 {
        name + ": Warning — only "@ + decimal(retries as nat) + "/3 attempts remaining"@
    } else {
        name + ": Working ("@ + decimal(retries as nat) + "/3 attempts remaining)"@
    }
}

/// The PIN status card: its lines and colour.
pub open spec fn pin_card(yk: Option<YubiKeyState>) -> (Seq<Seq<char>>, PinCardLevel) {
    match yk {
        Some(y) => {
            let p = y.pin_status;
            (
                seq![
                    pin_status_line("User PIN"@, p.user_pin_blocked, p.user_pin_retries, "use Admin PIN to unblock"@),
                    pin_status_line("Admin PIN"@, p.admin_pin_blocked, p.admin_pin_retries, "factory reset required"@),
                    "Reset Code: "@ + if p.reset_code_retries > 0 { "Set"@ } else { "Not set"@ },
                ],
                if p.user_pin_blocked || p.admin_pin_blocked {
                    PinCardLevel::Error
                } else if p.user_pin_retries <= 1 || p.admin_pin_retries <= 1 {
                    PinCardLevel::Warn
                } else {
                    PinCardLevel::Normal
                },
            )
        },
        None => (
            seq!["No YubiKey detected."@, "Insert your YubiKey and press R to refresh."@],
            PinCardLevel::Error,
        ),
    }
}

fn pin_status_line_of(name: &str, blocked: bool, retries: u8, blocked_text: &str) -> (s: String)
    ensures
        s@ == pin_status_line(name@, blocked, retries, blocked_text@),
{
    let mut s = String::from_str(name);
    if blocked {
        s.append(": Blocked — ");
        s.append(blocked_text);
    } else if retries <= 1 {
        s.append(": Warning — only ");
        push_decimal(&mut s, retries as u64);
        s.append("/3 attempts remaining");
    } else {
        s.append(": Working (");
        push_decimal(&mut s, retries as u64);
        s.append("/3 attempts remaining)");
    }
    s
}

impl PinManagementScreen {
    /// The PIN status card (see [`pin_card`]).
    pub fn status_card(&self) -> (r: (Vec<String>, PinCardLevel))
        ensures
            (string_views(r.0@), r.1) == pin_card(self.yubikey_state),
    {
        let mut lines: Vec<String> = Vec::new();
        match &self.yubikey_state {
            Some(y) => {
                let p = &y.pin_status;
                push_line(
                    &mut lines,
                    pin_status_line_of("User PIN", p.user_pin_blocked, p.user_pin_retries, "use Admin PIN to unblock"),
                );
                push_line(
                    &mut lines,
                    pin_status_line_of("Admin PIN", p.admin_pin_blocked, p.admin_pin_retries, "factory reset required"),
                );
                let mut r = String::from_str("Reset Code: ");
                r.append(if p.reset_code_retries > 0 { "Set" } else { "Not set" });
                push_line(&mut lines, r);
                let level = if p.user_pin_blocked || p.admin_pin_blocked {
                    PinCardLevel::Error
                } else if p.user_pin_retries <= 1 || p.admin_pin_retries <= 1 {
                    PinCardLevel::Warn
                } else {
                    PinCardLevel::Normal
                };
                assert(string_views(lines@) =~= pin_card(self.yubikey_state).0);
                (lines, level)
            },
            None => {
                push_line(&mut lines, String::from_str("No YubiKey detected."));
                push_line(&mut lines, String::from_str("Insert your YubiKey and press R to refresh."));
                assert(string_views(lines@) =~= pin_card(self.yubikey_state).0);
                (lines, PinCardLevel::Error)
            },
        }
    }
}

} // verus!
