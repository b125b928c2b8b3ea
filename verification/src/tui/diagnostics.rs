//! The diagnostics screen: one card per service, with what it shows and how
//! serious it is.
use vstd::prelude::*;
use vstd::string::*;
use crate::diagnostics::Diagnostics;
use crate::model::otp::opt_str;

verus! {

/// The operating system the program runs on, as far as the advice differs.
#[derive(Debug, Clone, Copy, PartialEq, Eq, Structural)]
pub enum HostOs {
    MacOs,
    Linux,
    Other,
}

/// How a card is coloured.
#[derive(Debug, Clone, Copy, PartialEq, Eq, Structural)]
pub enum CardLevel {
    Good,
    Warn,
    Error,
}

/// One service's card: its name, its status line, a detail line and its level.
#[derive(Debug)]
pub struct DiagCard {
    pub title: String,
    pub status: String,
    pub detail: String,
    pub level: CardLevel,
}

/// A card as plain values.
pub struct DiagCardView {
    pub title: Seq<char>,
    pub status: Seq<char>,
    pub detail: Seq<char>,
    pub level: CardLevel,
}

impl View for DiagCard {
    type V = DiagCardView;

    open spec fn view(&self) -> DiagCardView {
        DiagCardView { title: self.title@, status: self.status@, detail: self.detail@, level: self.level }
    }
}

/// The views of the cards.
pub open spec fn card_views(s: Seq<DiagCard>) -> Seq<DiagCardView> {
    s.map_values(|c: DiagCard| c@)
}

/// A present string, or the empty one.
pub open spec fn or_empty(o: Option<Seq<char>>) -> Seq<char> {
    match o {
        Some(s) => s,
        None => Seq::empty(),
    }
}

/// The PC/SC card: running with its version, else how to start it on this system.
pub open spec fn pcscd_card(d: Diagnostics, os: HostOs) -> DiagCardView {
    DiagCardView {
        title: "PC/SC Daemon"@,
        status: if d.pcscd.running { "✓ Running"@ } else { "✗ Down"@ },
        detail: if d.pcscd.running {
            or_empty(opt_str(d.pcscd.version))
        } else {
            match os {
                HostOs::MacOs => "brew services start pcsc-lite"@,
                HostOs::Linux => "sudo systemctl start pcscd"@,
                HostOs::Other => "Not running"@,
            }
        },
        level: if d.pcscd.running { CardLevel::Good } else { CardLevel::Error },
    }
}

/// The gpg-agent card: running with its version, else how to launch it.
pub open spec fn gpg_card(d: Diagnostics) -> DiagCardView {
    DiagCardView {
        title: "GPG Agent"@,
        status: if d.gpg_agent.running { "✓ Running"@ } else { "✗ Down"@ },
        detail: if d.gpg_agent.running {
            or_empty(opt_str(d.gpg_agent.version))
        } else {
            "gpgconf --launch gpg-agent"@
        },
        level: if d.gpg_agent.running { CardLevel::Good } else { CardLevel::Error },
    }
}

/// The scdaemon card: configured, else a warning with what to create.
pub open spec fn scdaemon_card(d: Diagnostics) -> DiagCardView {
    DiagCardView {
        title: "Scdaemon"@,
        status: if d.scdaemon.configured { "✓ Configured"@ } else { "○ Not configured"@ },
        detail: if d.scdaemon.configured { Seq::empty() } else { "Create ~/.gnupg/scdaemon.conf"@ },
        level: if d.scdaemon.configured { CardLevel::Good } else { CardLevel::Warn },
    }
}

/// The SSH agent card: configured with its socket, else a warning with the fix.
pub open spec fn ssh_card(d: Diagnostics) -> DiagCardView {
    DiagCardView {
        title: "SSH Agent"@,
        status: if d.ssh_agent.configured { "✓ GPG-enabled"@ } else { "○ Not configured"@ },
        detail: if d.ssh_agent.configured {
            or_empty(opt_str(d.ssh_agent.auth_sock))
        } else {
            "Add enable-ssh-support to gpg-agent.conf"@
        },
        level: if d.ssh_agent.configured { CardLevel::Good } else { CardLevel::Warn },
    }
}

/// The extra lines under the cards: the agent's socket and scdaemon's issues,
/// where known.
pub open spec fn extra_lines(d: Diagnostics) -> Seq<Seq<char>> {
    (match opt_str(d.gpg_agent.socket_path) {
        Some(s) => seq!["GPG socket: "@ + s],
        None => Seq::empty(),
    }) + (match opt_str(d.scdaemon.issues) {
        Some(i) => seq!["Scdaemon issues: "@ + i],
        None => Seq::empty(),
    })
}

fn copy_or_empty(o: &Option<String>) -> (s: String)
    ensures
        s@ == or_empty(opt_str(*o)),
{
    match o {
        Some(v) => v.clone(),
        None => String::new(),
    }
}

/// The diagnostics screen's key bindings.
#[derive(Debug, Clone, Copy, PartialEq, Eq, Structural)]
pub enum DiagnosticsAction {
    Back,
    Help,
    RunDiagnostics,
}

/// Where the diagnostics screen sends the user.
#[derive(Debug, Clone, Copy, PartialEq, Eq, Structural)]
pub enum DiagnosticsNav {
    /// Close the screen (running the diagnostics again reopens it with fresh ones).
    Back,
    Help,
}

/// The diagnostics screen.
#[derive(Debug)]
pub struct DiagnosticsScreen {
    pub diagnostics: Diagnostics,
    pub state: DiagnosticsTuiState,
}

/// The diagnostics screen's scroll position.
#[derive(Debug, Clone, Copy, PartialEq, Eq, Structural)]
pub struct DiagnosticsTuiState {
    pub scroll_offset: usize,
}

impl Default for DiagnosticsTuiState {
    /// Scrolled to the top.
    fn default() -> (s: Self)
        ensures
            s.scroll_offset == 0,
    {
        DiagnosticsTuiState { scroll_offset: 0 }
    }
}

impl DiagnosticsScreen {
    /// The screen for a set of diagnostics.
    pub fn new(diagnostics: Diagnostics) -> (s: Self)
        ensures
            s.diagnostics == diagnostics,
            s.state.scroll_offset == 0,
    {
        DiagnosticsScreen { diagnostics, state: DiagnosticsTuiState::default() }
    }

    /// The four cards, in the order PC/SC, GPG agent, scdaemon, SSH agent.
    pub fn cards(&self, os: HostOs) -> (c: Vec<DiagCard>)
        ensures
            card_views(c@) == seq![
                pcscd_card(self.diagnostics, os),
                gpg_card(self.diagnostics),
                scdaemon_card(self.diagnostics),
                ssh_card(self.diagnostics),
            ],
    {
        let d = &self.diagnostics;
        let pcscd = DiagCard {
            title: String::from_str("PC/SC Daemon"),
            status: String::from_str(if d.pcscd.running { "✓ Running" } else { "✗ Down" }),
            detail: if d.pcscd.running {
                copy_or_empty(&d.pcscd.version)
            } else {
                String::from_str(
                    match os {
                        HostOs::MacOs => "brew services start pcsc-lite",
                        HostOs::Linux => "sudo systemctl start pcscd",
                        HostOs::Other => "Not running",
                    },
                )
            },
            level: if d.pcscd.running { CardLevel::Good } else { CardLevel::Error },
        };
        let gpg = DiagCard {
            title: String::from_str("GPG Agent"),
            status: String::from_str(if d.gpg_agent.running { "✓ Running" } else { "✗ Down" }),
            detail: if d.gpg_agent.running {
                copy_or_empty(&d.gpg_agent.version)
            } else {
                String::from_str("gpgconf --launch gpg-agent")
            },
            level: if d.gpg_agent.running { CardLevel::Good } else { CardLevel::Error },
        };
        let scd = DiagCard {
            title: String::from_str("Scdaemon"),
            status: String::from_str(if d.scdaemon.configured { "✓ Configured" } else { "○ Not configured" }),
            detail: if d.scdaemon.configured {
                String::new()
            } else {
                String::from_str("Create ~/.gnupg/scdaemon.conf")
            },
            level: if d.scdaemon.configured { CardLevel::Good } else { CardLevel::Warn },
        };
        let ssh = DiagCard {
            title: String::from_str("SSH Agent"),
            status: String::from_str(if d.ssh_agent.configured { "✓ GPG-enabled" } else { "○ Not configured" }),
            detail: if d.ssh_agent.configured {
                copy_or_empty(&d.ssh_agent.auth_sock)
            } else {
                String::from_str("Add enable-ssh-support to gpg-agent.conf")
            },
            level: if d.ssh_agent.configured { CardLevel::Good } else { CardLevel::Warn },
        };
        let c = vec![pcscd, gpg, scd, ssh];
        assert(card_views(c@) =~= seq![
            pcscd_card(self.diagnostics, os),
            gpg_card(self.diagnostics),
            scdaemon_card(self.diagnostics),
            ssh_card(self.diagnostics),
        ]);
        c
    }

    /// The lines under the cards (see [`extra_lines`]).
    pub fn extra_lines(&self) -> (r: Vec<String>)
        ensures
            r@.map_values(|s: String| s@) == extra_lines(self.diagnostics),
    {
        let mut r: Vec<String> = Vec::new();
        match &self.diagnostics.gpg_agent.socket_path {
            Some(s) => {
                let mut l = String::from_str("GPG socket: ");
                l.append(s.as_str());
                r.push(l);
            },
            None => {},
        }
        let ghost first = r@;
        match &self.diagnostics.scdaemon.issues {
            Some(i) => {
                let mut l = String::from_str("Scdaemon issues: ");
                l.append(i.as_str());
                r.push(l);
            },
            None => {},
        }
        assert(r@.map_values(|s: String| s@) =~= extra_lines(self.diagnostics));
        r
    }

    /// Back and run both close the screen; help shows the help text.
    pub fn on_action(&self, action: DiagnosticsAction) -> (nav: DiagnosticsNav)
        ensures
            nav == (match action {
                DiagnosticsAction::Help => DiagnosticsNav::Help,
                _ => DiagnosticsNav::Back,
            }),
    {
        match action {
            DiagnosticsAction::Help => DiagnosticsNav::Help,
            _ => DiagnosticsNav::Back,
        }
    }
}

} // verus!
