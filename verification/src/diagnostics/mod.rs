//! System diagnostics: the state of pcscd, gpg-agent, scdaemon and the SSH
//! agent integration, built from what the probes report, and the report text.
use vstd::prelude::*;
use vstd::string::*;
use vstd::utf8::*;
use crate::model::otp::opt_str;
use crate::model::piv::strip_prefixes;
use crate::text::{
    chars_eq, chars_of, contains, contains_chars, lines, lines_of, starts_with, starts_with_chars,
    string_from_chars, trim, trim_chars, utf8_chars, views,
};

verus! {

/// gpg-agent: whether `gpgconf --list-dirs` ran, `gpg --version`'s first line,
/// and the agent socket.
#[derive(Debug, Clone)]
pub struct GpgAgentStatus {
    pub running: bool,
    pub version: Option<String>,
    pub socket_path: Option<String>,
}

/// scdaemon: whether its configuration file exists.
#[derive(Debug, Clone)]
pub struct ScdaemonStatus {
    pub configured: bool,
    pub issues: Option<String>,
}

/// pcscd: whether the service runs, and its version line.
#[derive(Debug, Clone)]
pub struct PcscdStatus {
    pub running: bool,
    pub version: Option<String>,
}

/// The SSH agent integration through gpg-agent.
#[derive(Debug, Clone)]
pub struct SshAgentStatus {
    pub configured: bool,
    pub gpg_agent_has_ssh_support: bool,
    pub ssh_auth_sock_correct: bool,
    pub auth_sock: Option<String>,
    pub expected_sock: Option<String>,
}

/// The first line of a command's standard output, where it is valid UTF-8 and
/// has a line.
pub open spec fn first_line(out: Seq<u8>) -> Option<Seq<char>> {
    if valid_utf8(out) && lines(decode_utf8(out)).len() > 0 {
        Some(lines(decode_utf8(out))[0])
    } else {
        None
    }
}

fn first_line_of(out: &[u8]) -> (r: Option<String>)
    ensures
        opt_str(r) == first_line(out@),
{
    match utf8_chars(out) {
        Some(cs) => {
            let ls = lines_of(&cs);
            if ls.len() > 0 {
                assert(views(ls@)[0] == ls@[0]@);
                Some(string_from_chars(&ls[0]))
            } else {
                None
            }
        },
        None => None,
    }
}

/// The index of the first line that starts with `p`.
pub open spec fn first_starting(ls: Seq<Seq<char>>, p: Seq<char>, i: int) -> bool {
    &&& 0 <= i < ls.len()
    &&& starts_with(ls[i], p)
    &&& forall|j: int| 0 <= j < i ==> !starts_with(#[trigger] ls[j], p)
}

/// The agent socket in `gpgconf --list-dirs` output: the first `agent-socket:`
/// line without that prefix (repeated prefixes removed too).
pub open spec fn agent_socket(out: Seq<u8>) -> Option<Seq<char>> {
    if !valid_utf8(out) {
        None
    } else {
        let ls = lines(decode_utf8(out));
        if exists|i: int| first_starting(ls, "agent-socket:"@, i) {
            let i = choose|i: int| first_starting(ls, "agent-socket:"@, i);
            Some(strip_prefixes(ls[i], "agent-socket:"@))
        } else {
            None
        }
    }
}

fn agent_socket_of(out: &[u8]) -> (r: Option<String>)
    ensures
        opt_str(r) == agent_socket(out@),
{
    let decoded = utf8_chars(out);
    let cs = match decoded {
        Some(c) => c,
        None => return None,
    };
    assert(valid_utf8(out@) && cs@ == decode_utf8(out@));
    let ls = lines_of(&cs);
    let ghost lv = views(ls@);
    assert(lv == lines(decode_utf8(out@)));
    let p = chars_of("agent-socket:");
    let mut i: usize = 0;
    while i < ls.len()
        invariant
            lv == views(ls@),
            lv == lines(decode_utf8(out@)),
            valid_utf8(out@),
            lv.len() == ls@.len(),
            i <= ls@.len(),
            p@ == "agent-socket:"@,
            forall|j: int| 0 <= j < i ==> !starts_with(#[trigger] lv[j], p@),
        decreases ls@.len() - i,
    {
        assert(lv[i as int] == ls@[i as int]@);
        if starts_with_chars(&ls[i], &p) {
            assert(first_starting(lv, p@, i as int));
            let ghost k = choose|k: int| first_starting(lv, "agent-socket:"@, k);
            assert(k == i) by {
                if k < i {
                    assert(!starts_with(lv[k], p@));
                }
                if i < k {
                    assert(!starts_with(lv[i as int], p@));
                }
            }
            let s = crate::model::piv::strip_prefixes_pub(&ls[i], &p);
            assert(s@ == strip_prefixes(lv[k], "agent-socket:"@));
            return Some(string_from_chars(&s));
        }
        i = i + 1;
    }
    None
}

/// The gpg-agent status from the probes' outputs (`None` where a command did
/// not run): running when `gpgconf --list-dirs` ran.
pub open spec fn gpg_agent_view(list_dirs: Option<Seq<u8>>, version: Option<Seq<u8>>) -> (
    bool,
    Option<Seq<char>>,
    Option<Seq<char>>,
) {
    (
        list_dirs is Some,
        match version {
            Some(v) => first_line(v),
            None => None,
        },
        match list_dirs {
            Some(o) => agent_socket(o),
            None => None,
        },
    )
}

/// Builds the gpg-agent status (see [`gpg_agent_view`]).
pub fn gpg_agent_status(list_dirs: Option<&[u8]>, version: Option<&[u8]>) -> (s: GpgAgentStatus)
    ensures
        (s.running, opt_str(s.version), opt_str(s.socket_path)) == gpg_agent_view(
            match list_dirs {
                Some(o) => Some(o@),
                None => None,
            },
            match version {
                Some(v) => Some(v@),
                None => None,
            },
        ),
{
    let running = list_dirs.is_some();
    let socket_path = match list_dirs {
        Some(o) => agent_socket_of(o),
        None => None,
    };
    let version = match version {
        Some(v) => first_line_of(v),
        None => None,
    };
    GpgAgentStatus { running, version, socket_path }
}

/// Builds the pcscd status from whether the service is active and the output of
/// `pcscd -v` (`None` where it did not run): the version is its first line.
pub fn pcscd_status(running: bool, version: Option<&[u8]>) -> (s: PcscdStatus)
    ensures
        s.running == running,
        opt_str(s.version) == match version {
            Some(v) => first_line(v@),
            None => None,
        },
{
    let version = match version {
        Some(v) => first_line_of(v),
        None => None,
    };
    PcscdStatus { running, version }
}

/// Builds the scdaemon status from whether `~/.gnupg/scdaemon.conf` exists.
pub fn scdaemon_status(config_exists: bool) -> (s: ScdaemonStatus)
    ensures
        s.configured == config_exists,
        opt_str(s.issues) == if config_exists {
            None
        } else {
            Some("scdaemon.conf not found"@)
        },
{
    let issues = if config_exists {
        None
    } else {
        Some(String::from_str("scdaemon.conf not found"))
    };
    ScdaemonStatus { configured: config_exists, issues }
}

/// The expected agent SSH socket: the trimmed output of a successful
/// `gpgconf --list-dirs agent-ssh-socket` in valid UTF-8.
pub open spec fn expected_socket(out: Option<(bool, Seq<u8>)>) -> Option<Seq<char>> {
    match out {
        Some((true, o)) => if valid_utf8(o) {
            Some(trim(decode_utf8(o)))
        } else {
            None
        },
        _ => None,
    }
}

/// Builds the SSH agent status from `SSH_AUTH_SOCK`, the text of
/// `gpg-agent.conf` (`None` where it could not be read) and the socket query
/// (its success and output; `None` where it did not run).
pub fn ssh_agent_status(
    auth_sock: Option<String>,
    gpg_agent_conf: Option<&str>,
    socket_query: Option<(bool, &[u8])>,
) -> (s: SshAgentStatus)
    ensures
        opt_str(s.auth_sock) == opt_str(auth_sock),
        s.gpg_agent_has_ssh_support == match gpg_agent_conf {
            Some(c) => contains(c@, "enable-ssh-support"@),
            None => false,
        },
        opt_str(s.expected_sock) == expected_socket(
            match socket_query {
                Some((ok, o)) => Some((ok, o@)),
                None => None,
            },
        ),
        s.ssh_auth_sock_correct == (opt_str(s.auth_sock) is Some && opt_str(s.expected_sock) is Some
            && opt_str(s.auth_sock) == opt_str(s.expected_sock)),
        s.configured == (s.gpg_agent_has_ssh_support && s.ssh_auth_sock_correct),
{
    let has_ssh = match gpg_agent_conf {
        Some(c) => {
            let cv = chars_of(c);
            let p = chars_of("enable-ssh-support");
            contains_chars(&cv, &p)
        },
        None => false,
    };
    let expected: Option<String> = match socket_query {
        Some((true, o)) => match utf8_chars(o) {
            Some(cs) => Some(string_from_chars(&trim_chars(&cs))),
            None => None,
        },
        _ => None,
    };
    let correct = match (&auth_sock, &expected) {
        (Some(a), Some(e)) => {
            let av = chars_of(a.as_str());
            let ev = chars_of(e.as_str());
            chars_eq(&av, &ev)
        },
        _ => false,
    };
    SshAgentStatus {
        configured: has_ssh && correct,
        gpg_agent_has_ssh_support: has_ssh,
        ssh_auth_sock_correct: correct,
        auth_sock,
        expected_sock: expected,
    }
}

/// The four diagnostics together.
#[derive(Debug, Clone)]
pub struct Diagnostics {
    pub gpg_agent: GpgAgentStatus,
    pub scdaemon: ScdaemonStatus,
    pub pcscd: PcscdStatus,
    pub ssh_agent: SshAgentStatus,
}

impl Diagnostics {
    /// The diagnostics from the four probes' statuses.
    pub fn run(
        gpg_agent: GpgAgentStatus,
        scdaemon: ScdaemonStatus,
        pcscd: PcscdStatus,
        ssh_agent: SshAgentStatus,
    ) -> (d: Self)
        ensures
            d == (Diagnostics { gpg_agent, scdaemon, pcscd, ssh_agent }),
    {
        Diagnostics { gpg_agent, scdaemon, pcscd, ssh_agent }
    }

    /// An error: gpg-agent or pcscd not running, or scdaemon not configured.
    pub fn has_errors(&self) -> (b: bool)
        ensures
            b == (!self.gpg_agent.running || !self.pcscd.running || !self.scdaemon.configured),
    {
        !self.gpg_agent.running || !self.pcscd.running || !self.scdaemon.configured
    }

    /// A warning: SSH integration not configured, or scdaemon issues.
    pub fn has_warnings(&self) -> (b: bool)
        ensures
            b == (!self.ssh_agent.configured || self.scdaemon.issues.is_some()),
    {
        !self.ssh_agent.configured || self.scdaemon.issues.is_some()
    }
}

impl Default for Diagnostics {
    /// Healthy placeholder diagnostics (versions `mock`).
    fn default() -> (d: Self)
        ensures
            d.gpg_agent.running && opt_str(d.gpg_agent.version) == Some("mock"@)
                && d.gpg_agent.socket_path.is_none(),
            d.scdaemon.configured && d.scdaemon.issues.is_none(),
            d.pcscd.running && opt_str(d.pcscd.version) == Some("mock"@),
            d.ssh_agent.configured && d.ssh_agent.gpg_agent_has_ssh_support
                && d.ssh_agent.ssh_auth_sock_correct && d.ssh_agent.auth_sock.is_none()
                && d.ssh_agent.expected_sock.is_none(),
    {
        Diagnostics {
            gpg_agent: GpgAgentStatus {
                running: true,
                version: Some(String::from_str("mock")),
                socket_path: None,
            },
            scdaemon: ScdaemonStatus { configured: true, issues: None },
            pcscd: PcscdStatus { running: true, version: Some(String::from_str("mock")) },
            ssh_agent: SshAgentStatus {
                configured: true,
                gpg_agent_has_ssh_support: true,
                ssh_auth_sock_correct: true,
                auth_sock: None,
                expected_sock: None,
            },
        }
    }
}

/// `prefix`, the value and a line end, where there is a value.
pub open spec fn opt_line(prefix: Seq<char>, o: Option<Seq<char>>) -> Seq<char> {
    match o {
        Some(v) => prefix + v + "\n"@,
        None => Seq::empty(),
    }
}

/// The running/not running mark.
pub open spec fn run_mark(b: bool) -> Seq<char> {
    if b {
        "✅ Running"@
    } else {
        "❌ Not running"@
    }
}

/// The yes/no mark.
pub open spec fn yes_mark(b: bool) -> Seq<char> {
    if b {
        "✅ Yes"@
    } else {
        "⚠️  No"@
    }
}

/// The SSH part of the report after its `Configured:` line.
pub open spec fn ssh_details(s: SshAgentStatus) -> Seq<char> {
    if !s.configured {
        (if !s.gpg_agent_has_ssh_support {
            "  Issues: enable-ssh-support not found in ~/.gnupg/gpg-agent.conf\n"@
        } else {
            Seq::empty()
        }) + (if !s.ssh_auth_sock_correct {
            "  Issues: SSH_AUTH_SOCK not pointing to GPG agent\n"@ + opt_line(
                "    Current: "@,
                opt_str(s.auth_sock),
            ) + match opt_str(s.expected_sock) {
                Some(e) => "    Expected: "@ + e + "\n"@ + "    Add to ~/.bashrc or ~/.zshrc:\n"@
                    + "      export SSH_AUTH_SOCK=\""@ + e + "\"\n"@,
                None => Seq::empty(),
            }
        } else {
            Seq::empty()
        })
    } else {
        opt_line("  SSH_AUTH_SOCK: "@, opt_str(s.auth_sock))
    }
}

/// The diagnostics report.
pub open spec fn report(d: Diagnostics) -> Seq<char> {
    "System Diagnostics:\n"@ + "==================\n\n"@ + "PC/SC Daemon (pcscd):\n"@ + "  Status: "@
        + run_mark(d.pcscd.running) + "\n"@ + opt_line("  Version: "@, opt_str(d.pcscd.version))
        + "\n"@ + "GPG Agent:\n"@ + "  Status: "@ + run_mark(d.gpg_agent.running) + "\n"@
        + opt_line("  Version: "@, opt_str(d.gpg_agent.version)) + opt_line(
        "  Socket: "@,
        opt_str(d.gpg_agent.socket_path),
    ) + "\n"@ + "Scdaemon:\n"@ + "  Configured: "@ + yes_mark(d.scdaemon.configured) + "\n"@
        + opt_line("  Issues: "@, opt_str(d.scdaemon.issues)) + "\n"@ + "SSH Agent Integration:\n"@
        + "  Configured: "@ + yes_mark(d.ssh_agent.configured) + "\n"@ + ssh_details(d.ssh_agent)
}

fn push_opt_line(s: &mut String, prefix: &str, o: &Option<String>)
    ensures
        final(s)@ == old(s)@ + opt_line(prefix@, opt_str(*o)),
{
    match o {
        Some(v) => {
            s.append(prefix);
            s.append(v.as_str());
            s.append("\n");
        },
        None => {
            assert(old(s)@ + Seq::<char>::empty() =~= old(s)@);
        },
    }
}

fn push_ssh_details(s: &mut String, a: &SshAgentStatus)
    ensures
        final(s)@ == old(s)@ + ssh_details(*a),
{
    if !a.configured {
        let ghost start = s@;
        if !a.gpg_agent_has_ssh_support {
            s.append("  Issues: enable-ssh-support not found in ~/.gnupg/gpg-agent.conf\n");
        }
        let ghost mid = s@;
        if !a.ssh_auth_sock_correct {
            s.append("  Issues: SSH_AUTH_SOCK not pointing to GPG agent\n");
            push_opt_line(s, "    Current: ", &a.auth_sock);
            match &a.expected_sock {
                Some(e) => {
                    s.append("    Expected: ");
                    s.append(e.as_str());
                    s.append("\n");
                    s.append("    Add to ~/.bashrc or ~/.zshrc:\n");
                    s.append("      export SSH_AUTH_SOCK=\"");
                    s.append(e.as_str());
                    s.append("\"\n");
                },
                None => {},
            }
        }
        assert(s@ =~= old(s)@ + ssh_details(*a));
    } else {
        push_opt_line(s, "  SSH_AUTH_SOCK: ", &a.auth_sock);
    }
}

impl Diagnostics {
    /// The diagnostics report (see [`report`]).
    pub fn to_string(&self) -> (s: String)
        ensures
            s@ == report(*self),
    {
        let mut s = String::from_str("System Diagnostics:\n");
        s.append("==================\n\n");
        s.append("PC/SC Daemon (pcscd):\n");
        s.append("  Status: ");
        s.append(if self.pcscd.running { "✅ Running" } else { "❌ Not running" });
        s.append("\n");
        push_opt_line(&mut s, "  Version: ", &self.pcscd.version);
        s.append("\n");
        s.append("GPG Agent:\n");
        s.append("  Status: ");
        s.append(if self.gpg_agent.running { "✅ Running" } else { "❌ Not running" });
        s.append("\n");
        push_opt_line(&mut s, "  Version: ", &self.gpg_agent.version);
        push_opt_line(&mut s, "  Socket: ", &self.gpg_agent.socket_path);
        s.append("\n");
        s.append("Scdaemon:\n");
        s.append("  Configured: ");
        s.append(if self.scdaemon.configured { "✅ Yes" } else { "⚠️  No" });
        s.append("\n");
        push_opt_line(&mut s, "  Issues: ", &self.scdaemon.issues);
        s.append("\n");
        s.append("SSH Agent Integration:\n");
        s.append("  Configured: ");
        s.append(if self.ssh_agent.configured { "✅ Yes" } else { "⚠️  No" });
        s.append("\n");
        push_ssh_details(&mut s, &self.ssh_agent);
        s
    }
}

} // verus!
