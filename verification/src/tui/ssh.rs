//! The SSH setup wizard: its pages, what each action asks for, and how the
//! outcome of a step is reported.
use vstd::prelude::*;
use vstd::string::*;
use crate::model::pin_operations::string_views;
use crate::tui::keys::push_line;
use crate::text::{decimal, push_char, push_chars, push_decimal, trim, trim_chars, utf8_lossy, utf8_lossy_chars};

verus! {

/// The pages of the SSH setup wizard.
#[derive(Debug, Clone, Copy, PartialEq, Eq, Structural)]
pub enum SshScreen {
    Main,
    EnableSSH,
    ConfigureShell,
    RestartAgent,
    ExportKey,
    TestConnection,
}

/// The SSH wizard's state.
#[derive(Debug)]
pub struct SshState {
    pub screen: SshScreen,
    pub message: Option<String>,
    pub ssh_enabled: bool,
    pub shell_configured: bool,
    pub agent_running: bool,
    /// Username of the connection test.
    pub test_conn_user: String,
    /// Host of the connection test.
    pub test_conn_host: String,
    /// The focused field of the connection test: 0 user, 1 host.
    pub test_conn_focused: u8,
    pub scroll_offset: usize,
}

impl Default for SshState {
    /// The main page with nothing known yet.
    fn default() -> (s: Self)
        ensures
            s.screen == SshScreen::Main,
            s.message.is_none(),
            !s.ssh_enabled && !s.shell_configured && !s.agent_running,
            s.test_conn_user@.len() == 0 && s.test_conn_host@.len() == 0,
            s.test_conn_focused == 0 && s.scroll_offset == 0,
    {
        SshState {
            screen: SshScreen::Main,
            message: None,
            ssh_enabled: false,
            shell_configured: false,
            agent_running: false,
            test_conn_user: String::new(),
            test_conn_host: String::new(),
            test_conn_focused: 0,
            scroll_offset: 0,
        }
    }
}


/// The page that the numbered step `n` (1 to 5) opens.
pub open spec fn step_screen(n: u8) -> Option<SshScreen> {
    match n {
        1 => Some(SshScreen::EnableSSH),
        2 => Some(SshScreen::ConfigureShell),
        3 => Some(SshScreen::RestartAgent),
        4 => Some(SshScreen::ExportKey),
        5 => Some(SshScreen::TestConnection),
        _ => None,
    }
}

/// The actions of the SSH wizard.
#[derive(Debug, Clone, Copy, PartialEq, Eq, Structural)]
pub enum SshAction {
    Back,
    /// Open the numbered step (1 to 5).
    Step(u8),
    /// Carry out the open step.
    Execute,
    Refresh,
    Help,
}

/// The steps that run an outside operation and report a message.
#[derive(Debug, Clone, Copy, PartialEq, Eq, Structural)]
pub enum SshStep {
    EnableSsh,
    ConfigureShell,
    RestartAgent,
    TestConnection,
}

/// What the wizard asks of its caller after an action.
#[derive(Debug)]
pub enum SshCommand {
    /// Nothing to do but redraw.
    Stay,
    /// Close the wizard.
    Close,
    /// Show the wizard's help text.
    Help,
    /// Run the step and hand its outcome to `on_step_result`.
    Run(SshStep),
    /// List the agent's public keys (`ssh-add -L`) and hand the outcome to `on_agent_keys`.
    ListAgentKeys,
    /// Test an SSH connection and hand the outcome to `on_step_result`.
    TestConnection { user: String, host: String },
}

/// How a run of `ssh-add -L` ended.
#[derive(Debug)]
pub enum AgentKeysOutcome {
    /// The program ran; `exit_code` is absent where a signal ended it.
    Ran { success: bool, exit_code: Option<i32>, stdout: Vec<u8>, stderr: Vec<u8> },
    /// The program could not be started.
    NotRun(String),
}

/// The decimal text of a signed number.
pub open spec fn signed_decimal(n: int) -> Seq<char> {
    if n < 0 {
        seq!['-'] + decimal((-n) as nat)
    } else {
        decimal(n as nat)
    }
}

/// Appends the decimal text of `n` to `s`.
fn push_signed(s: &mut String, n: i32)
    ensures
        final(s)@ == old(s)@ + signed_decimal(n as int),
{
    if n < 0 {
        push_char(s, '-');
        let m: i64 = n as i64;
        push_decimal(s, (-m) as u64);
        assert(final(s)@ =~= old(s)@ + signed_decimal(n as int));
    } else {
        push_decimal(s, n as u64);
    }
}

/// The message that the outcome of `ssh-add -L` leaves on the main page.
pub open spec fn agent_keys_message(o: AgentKeysOutcome) -> Seq<char> {
    match o {
        AgentKeysOutcome::Ran { success, exit_code, stdout, stderr } => if success {
            let keys = trim(utf8_lossy(stdout@));
            if keys.len() == 0 {
                "ssh-add -L returned no keys. Insert YubiKey and try again."@
            } else {
                keys
            }
        } else {
            "ssh-add -L failed (exit "@ + signed_decimal(
                match exit_code {
                    Some(c) => c as int,
                    None => -1,
                },
            ) + "): "@ + trim(utf8_lossy(stderr@))
        },
        AgentKeysOutcome::NotRun(e) => "Failed to run ssh-add: "@ + e@,
    }
}

/// `b` is `a` with only the page and the message changed.
pub open spec fn same_flags_and_fields(a: SshState, b: SshState) -> bool {
    &&& b.ssh_enabled == a.ssh_enabled
    &&& b.shell_configured == a.shell_configured
    &&& b.agent_running == a.agent_running
    &&& b.test_conn_user@ == a.test_conn_user@
    &&& b.test_conn_host@ == a.test_conn_host@
    &&& b.test_conn_focused == a.test_conn_focused
    &&& b.scroll_offset == a.scroll_offset
}

/// `b` is `a` with only the page changed.
pub open spec fn only_screen_changed(a: SshState, b: SshState) -> bool {
    &&& same_flags_and_fields(a, b)
    &&& b.message == a.message
}

/// The SSH setup wizard.
#[derive(Debug)]
pub struct SshWizardScreen {
    pub state: SshState,
}

impl SshWizardScreen {
    /// The wizard on the given state.
    pub fn new(initial_state: SshState) -> (s: Self)
        ensures
            s.state == initial_state,
    {
        SshWizardScreen { state: initial_state }
    }

    /// Back returns to the main page, clearing its message, or closes the
    /// wizard from there; a step opens its page; execute asks for the open
    /// step's operation (the connection test only once both fields are filled);
    /// refresh closes the wizard.
    pub fn on_action(&mut self, action: SshAction) -> (cmd: SshCommand)
        ensures
            match action {
                SshAction::Back => if old(self).state.screen == SshScreen::Main {
                    cmd is Close && final(self).state == old(self).state
                } else {
                    &&& cmd is Stay
                    &&& final(self).state.screen == SshScreen::Main
                    &&& final(self).state.message is None
                    &&& same_flags_and_fields(old(self).state, final(self).state)
                },
                SshAction::Step(n) => cmd is Stay && match step_screen(n) {
                    Some(p) => final(self).state.screen == p && only_screen_changed(
                        old(self).state,
                        final(self).state,
                    ),
                    None => final(self).state == old(self).state,
                },
                SshAction::Execute => match old(self).state.screen {
                    SshScreen::Main => cmd is Stay && final(self).state == old(self).state,
                    SshScreen::EnableSSH => cmd == SshCommand::Run(SshStep::EnableSsh)
                        && final(self).state == old(self).state,
                    SshScreen::ConfigureShell => cmd == SshCommand::Run(SshStep::ConfigureShell)
                        && final(self).state == old(self).state,
                    SshScreen::RestartAgent => cmd == SshCommand::Run(SshStep::RestartAgent)
                        && final(self).state == old(self).state,
                    SshScreen::ExportKey => cmd is ListAgentKeys && final(self).state
                        == old(self).state,
                    SshScreen::TestConnection => if old(self).state.test_conn_user@.len() == 0
                        || old(self).state.test_conn_host@.len() == 0 {
                        &&& cmd is Stay
                        &&& final(self).state.screen == SshScreen::TestConnection
                        &&& (final(self).state.message matches Some(m) && m@
                            == "Enter both username and hostname"@)
                        &&& same_flags_and_fields(old(self).state, final(self).state)
                    } else {
                        &&& (cmd matches SshCommand::TestConnection { user, host } && user@
                            == old(self).state.test_conn_user@ && host@
                            == old(self).state.test_conn_host@)
                        &&& final(self).state == old(self).state
                    },
                },
                SshAction::Refresh => cmd is Close && final(self).state == old(self).state,
                SshAction::Help => cmd is Help && final(self).state == old(self).state,
            },
    {
        match action {
            SshAction::Back => {
                if self.state.screen == SshScreen::Main {
                    SshCommand::Close
                } else {
                    self.state.screen = SshScreen::Main;
                    self.state.message = None;
                    SshCommand::Stay
                }
            },
            SshAction::Step(n) => {
                if n == 1 {
                    self.state.screen = SshScreen::EnableSSH;
                } else if n == 2 {
                    self.state.screen = SshScreen::ConfigureShell;
                } else if n == 3 {
                    self.state.screen = SshScreen::RestartAgent;
                } else if n == 4 {
                    self.state.screen = SshScreen::ExportKey;
                } else if n == 5 {
                    self.state.screen = SshScreen::TestConnection;
                }
                SshCommand::Stay
            },
            SshAction::Execute => match self.state.screen {
                SshScreen::Main => SshCommand::Stay,
                SshScreen::EnableSSH => SshCommand::Run(SshStep::EnableSsh),
                SshScreen::ConfigureShell => SshCommand::Run(SshStep::ConfigureShell),
                SshScreen::RestartAgent => SshCommand::Run(SshStep::RestartAgent),
                SshScreen::ExportKey => SshCommand::ListAgentKeys,
                SshScreen::TestConnection => {
                    if self.state.test_conn_user.as_str().is_empty()
                        || self.state.test_conn_host.as_str().is_empty() {
                        self.state.message = Some(
                            String::from_str("Enter both username and hostname"),
                        );
                        SshCommand::Stay
                    } else {
                        SshCommand::TestConnection {
                            user: self.state.test_conn_user.clone(),
                            host: self.state.test_conn_host.clone(),
                        }
                    }
                },
            },
            SshAction::Refresh => SshCommand::Close,
            SshAction::Help => SshCommand::Help,
        }
    }

    /// The outcome of a step: back to the main page with the step's message
    /// (or the error after "Error: "); a success marks SSH support enabled, the
    /// shell configured or the agent running.
    pub fn on_step_result(&mut self, step: SshStep, result: Result<String, String>)
        ensures
            final(self).state.screen == SshScreen::Main,
            match result {
                Ok(m) => final(self).state.message matches Some(x) && x@ == m@,
                Err(e) => final(self).state.message matches Some(x) && x@ == "Error: "@ + e@,
            },
            final(self).state.ssh_enabled == (old(self).state.ssh_enabled || (result is Ok
                && step == SshStep::EnableSsh)),
            final(self).state.shell_configured == (old(self).state.shell_configured || (
            result is Ok && step == SshStep::ConfigureShell)),
            final(self).state.agent_running == (old(self).state.agent_running || (result is Ok
                && step == SshStep::RestartAgent)),
            final(self).state.test_conn_user@ == old(self).state.test_conn_user@,
            final(self).state.test_conn_host@ == old(self).state.test_conn_host@,
            final(self).state.test_conn_focused == old(self).state.test_conn_focused,
            final(self).state.scroll_offset == old(self).state.scroll_offset,
    {
        match result {
            Ok(m) => {
                match step {
                    SshStep::EnableSsh => {
                        self.state.ssh_enabled = true;
                    },
                    SshStep::ConfigureShell => {
                        self.state.shell_configured = true;
                    },
                    SshStep::RestartAgent => {
                        self.state.agent_running = true;
                    },
                    SshStep::TestConnection => {},
                }
                self.state.message = Some(m);
            },
            Err(e) => {
                let mut msg = String::from_str("Error: ");
                msg.append(e.as_str());
                self.state.message = Some(msg);
            },
        }
        self.state.screen = SshScreen::Main;
    }

    /// The outcome of `ssh-add -L`: back to the main page with the keys it
    /// printed, or with what went wrong.
    pub fn on_agent_keys(&mut self, outcome: AgentKeysOutcome)
        ensures
            final(self).state.screen == SshScreen::Main,
            final(self).state.message matches Some(m) && m@ == agent_keys_message(outcome),
            same_flags_and_fields(old(self).state, final(self).state),
    {
        let ghost o = outcome;
        let msg = match outcome {
            AgentKeysOutcome::Ran { success, exit_code, stdout, stderr } => {
                if success {
                    let text = utf8_lossy_chars(stdout.as_slice());
                    let keys = trim_chars(text.as_slice());
                    if keys.len() == 0 {
                        String::from_str("ssh-add -L returned no keys. Insert YubiKey and try again.")
                    } else {
                        let mut s = String::new();
                        push_chars(&mut s, keys.as_slice());
                        s
                    }
                } else {
                    let code: i32 = match exit_code {
                        Some(c) => c,
                        None => -1,
                    };
                    let mut s = String::from_str("ssh-add -L failed (exit ");
                    push_signed(&mut s, code);
                    s.append("): ");
                    let text = utf8_lossy_chars(stderr.as_slice());
                    let t = trim_chars(text.as_slice());
                    push_chars(&mut s, t.as_slice());
                    s
                }
            },
            AgentKeysOutcome::NotRun(e) => {
                let mut s = String::from_str("Failed to run ssh-add: ");
                s.append(e.as_str());
                s
            },
        };
        proof {
            reveal_strlit("ssh-add -L returned no keys. Insert YubiKey and try again.");
        }
        assert(msg@ =~= agent_keys_message(o));
        self.state.message = Some(msg);
        self.state.screen = SshScreen::Main;
    }
}

/// The status line of the wizard's message, after `prefix`, where there is one.
pub open spec fn message_line(m: Option<String>, prefix: Seq<char>) -> Seq<Seq<char>> {
    match m {
        Some(x) => seq![prefix + x@],
        None => Seq::empty(),
    }
}

/// The text of each page of the SSH wizard.
pub open spec fn ssh_lines(st: SshState) -> Seq<Seq<char>> {
    match st.screen {
        SshScreen::Main => seq![
            "Setup Progress"@,
            if st.ssh_enabled { "✓ SSH support enabled in gpg-agent.conf"@ } else { "○ SSH support in gpg-agent.conf"@ },
            if st.shell_configured { "✓ SSH_AUTH_SOCK configured in shell"@ } else { "○ SSH_AUTH_SOCK configured in shell"@ },
            if st.agent_running { "✓ GPG agent active"@ } else { "⚠ GPG agent not running"@ },
        ] + message_line(st.message, "Status: "@) + seq![""@],
        SshScreen::EnableSSH => seq![
            "Enable SSH Support"@,
            "Add 'enable-ssh-support' to ~/.gnupg/gpg-agent.conf"@,
            ""@,
            "This tells GPG agent to handle SSH authentication."@,
            "Press Enter to enable or Esc to cancel."@,
        ] + message_line(st.message, ""@),
        SshScreen::ConfigureShell => seq![
            "Configure Shell"@,
            "Add SSH_AUTH_SOCK export to your shell configuration."@,
            ""@,
            "This will:"@,
            "  1. Detect your shell (bash/zsh)"@,
            "  2. Add export to ~/.bashrc or ~/.zshrc"@,
            "  3. Configure SSH to use GPG agent"@,
            ""@,
            "After this, restart your shell or source the config."@,
            "Press Enter to configure or Esc to cancel."@,
        ] + message_line(st.message, ""@),
        SshScreen::RestartAgent => seq![
            "Restart GPG Agent"@,
            "Restart GPG agent to apply configuration changes."@,
            ""@,
            "This will kill the current agent and start a new one."@,
            "Press Enter to restart or Esc to cancel."@,
        ] + message_line(st.message, ""@),
        SshScreen::ExportKey => seq![
            "Export SSH Public Key"@,
            "Export your YubiKey's authentication key as SSH public key."@,
            ""@,
            "The key will be displayed on screen. Copy it to:"@,
            "  - Remote servers (~/.ssh/authorized_keys)"@,
            "  - GitHub/GitLab SSH keys"@,
            ""@,
            "Press Enter to export or Esc to cancel."@,
        ] + message_line(st.message, ""@),
        SshScreen::TestConnection => seq![
            "Test SSH Connection"@,
            "Username: "@ + st.test_conn_user@,
            "Hostname: "@ + st.test_conn_host@,
            ""@,
            "Type username and hostname, then press Enter to test."@,
            "Tab switches between fields. Esc cancels."@,
        ] + message_line(st.message, "Result: "@),
    }
}

/// The buttons of a page: the main page's five steps, none elsewhere.
pub open spec fn ssh_buttons(st: SshState) -> Seq<(Seq<char>, SshAction)> {
    if st.screen == SshScreen::Main {
        seq![
            ("Enable SSH Support"@, SshAction::Step(1)),
            ("Configure Shell"@, SshAction::Step(2)),
            ("Restart Agent"@, SshAction::Step(3)),
            ("Export SSH Key"@, SshAction::Step(4)),
            ("Test Connection"@, SshAction::Step(5)),
        ]
    } else {
        Seq::empty()
    }
}

/// The views of labelled buttons.
pub open spec fn ssh_button_views(v: Seq<(String, SshAction)>) -> Seq<(Seq<char>, SshAction)> {
    v.map_values(|b: (String, SshAction)| (b.0@, b.1))
}

fn push_message(v: &mut Vec<String>, m: &Option<String>, prefix: &str)
    ensures
        string_views(final(v)@) == string_views(old(v)@) + message_line(*m, prefix@),
{
    match m {
        Some(x) => {
            let mut l = String::from_str(prefix);
            l.append(x.as_str());
            push_line(v, l);
        },
        None => {},
    }
    assert(string_views(v@) =~= string_views(old(v)@) + message_line(*m, prefix@));
}

fn push_lines(v: &mut Vec<String>, lines: &[&str])
    ensures
        string_views(final(v)@) == string_views(old(v)@) + Seq::new(lines@.len(), |i: int| lines@[i]@),
{
    let mut i: usize = 0;
    while i < lines.len()
        invariant
            i <= lines@.len(),
            string_views(v@) == string_views(old(v)@) + Seq::new(i as nat, |k: int| lines@[k]@),
        decreases lines@.len() - i,
    {
        push_line(v, String::from_str(lines[i]));
        i = i + 1;
        assert(string_views(v@) =~= string_views(old(v)@) + Seq::new(i as nat, |k: int| lines@[k]@));
    }
}

impl SshWizardScreen {
    /// The header and the text of the current page (see [`ssh_lines`]).
    pub fn screen(&self) -> (r: (String, Vec<String>))
        ensures
            r.0@ == "SSH Setup Wizard"@,
            string_views(r.1@) == ssh_lines(self.state),
    {
        let st = &self.state;
        let mut v: Vec<String> = Vec::new();
        match st.screen {
            SshScreen::Main => {
                let a: &str = if st.ssh_enabled { "✓ SSH support enabled in gpg-agent.conf" } else { "○ SSH support in gpg-agent.conf" };
                let b: &str = if st.shell_configured { "✓ SSH_AUTH_SOCK configured in shell" } else { "○ SSH_AUTH_SOCK configured in shell" };
                let c: &str = if st.agent_running { "✓ GPG agent active" } else { "⚠ GPG agent not running" };
                push_lines(&mut v, &["Setup Progress", a, b, c]);
                push_message(&mut v, &st.message, "Status: ");
                push_line(&mut v, String::from_str(""));
            },
            SshScreen::EnableSSH => {
                push_lines(&mut v, &[
                    "Enable SSH Support",
                    "Add 'enable-ssh-support' to ~/.gnupg/gpg-agent.conf",
                    "",
                    "This tells GPG agent to handle SSH authentication.",
                    "Press Enter to enable or Esc to cancel.",
                ]);
                push_message(&mut v, &st.message, "");
            },
            SshScreen::ConfigureShell => {
                push_lines(&mut v, &[
                    "Configure Shell",
                    "Add SSH_AUTH_SOCK export to your shell configuration.",
                    "",
                    "This will:",
                    "  1. Detect your shell (bash/zsh)",
                    "  2. Add export to ~/.bashrc or ~/.zshrc",
                    "  3. Configure SSH to use GPG agent",
                    "",
                    "After this, restart your shell or source the config.",
                    "Press Enter to configure or Esc to cancel.",
                ]);
                push_message(&mut v, &st.message, "");
            },
            SshScreen::RestartAgent => {
                push_lines(&mut v, &[
                    "Restart GPG Agent",
                    "Restart GPG agent to apply configuration changes.",
                    "",
                    "This will kill the current agent and start a new one.",
                    "Press Enter to restart or Esc to cancel.",
                ]);
                push_message(&mut v, &st.message, "");
            },
            SshScreen::ExportKey => {
                push_lines(&mut v, &[
                    "Export SSH Public Key",
                    "Export your YubiKey's authentication key as SSH public key.",
                    "",
                    "The key will be displayed on screen. Copy it to:",
                    "  - Remote servers (~/.ssh/authorized_keys)",
                    "  - GitHub/GitLab SSH keys",
                    "",
                    "Press Enter to export or Esc to cancel.",
                ]);
                push_message(&mut v, &st.message, "");
            },
            SshScreen::TestConnection => {
                push_line(&mut v, String::from_str("Test SSH Connection"));
                let mut u = String::from_str("Username: ");
                u.append(st.test_conn_user.as_str());
                push_line(&mut v, u);
                let mut h = String::from_str("Hostname: ");
                h.append(st.test_conn_host.as_str());
                push_line(&mut v, h);
                push_lines(&mut v, &[
                    "",
                    "Type username and hostname, then press Enter to test.",
                    "Tab switches between fields. Esc cancels.",
                ]);
                push_message(&mut v, &st.message, "Result: ");
            },
        }
        assert(string_views(v@) =~= ssh_lines(self.state));
        (String::from_str("SSH Setup Wizard"), v)
    }

    /// The buttons of the current page (see [`ssh_buttons`]).
    pub fn buttons(&self) -> (v: Vec<(String, SshAction)>)
        ensures
            ssh_button_views(v@) == ssh_buttons(self.state),
    {
        let mut v: Vec<(String, SshAction)> = Vec::new();
        if self.state.screen == SshScreen::Main {
            v.push((String::from_str("Enable SSH Support"), SshAction::Step(1)));
            v.push((String::from_str("Configure Shell"), SshAction::Step(2)));
            v.push((String::from_str("Restart Agent"), SshAction::Step(3)));
            v.push((String::from_str("Export SSH Key"), SshAction::Step(4)));
            v.push((String::from_str("Test Connection"), SshAction::Step(5)));
        }
        assert(ssh_button_views(v@) =~= ssh_buttons(self.state));
        v
    }
}

} // verus!
