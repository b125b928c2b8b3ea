//! The SSH agent as the SSH screen sees it.
use vstd::prelude::*;
use vstd::string::*;
use crate::model::otp::opt_str;
use crate::text::{
    chars_of, contains, contains_chars, lines, lines_of, nonempty, push_chars, split_whitespace,
    string_from_chars, trim, trim_chars, utf8_lossy, utf8_lossy_chars, views, words,
};
use crate::model::pin_operations::string_views;
use crate::tui::keys::push_line;

verus! {

/// The SSH agent: running, served by gpg-agent, its socket and its keys.
#[derive(Debug)]
pub struct SshConfig {
    pub agent_running: bool,
    pub gpg_agent_ssh: bool,
    pub ssh_auth_sock: Option<String>,
    pub keys_available: Vec<String>,
}

/// A key line of `ssh-add -L`, shortened: type and comment around `...` when
/// there are three or more words, the type alone with two, else the line.
pub open spec fn key_summary(line: Seq<char>) -> Seq<char> {
    let p = words(line);
    if p.len() >= 3 {
        p[0] + " ... "@ + p[2]
    } else if p.len() == 2 {
        p[0]
    } else {
        line
    }
}

/// The shortened keys of `ssh-add -L` output (decoded lossily), empty lines
/// left out.
pub open spec fn ssh_keys(out: Seq<u8>) -> Seq<Seq<char>> {
    lines(utf8_lossy(out)).filter(nonempty()).map_values(|l: Seq<char>| key_summary(l))
}

/// The views of a sequence of strings.
pub open spec fn key_views(s: Seq<String>) -> Seq<Seq<char>> {
    s.map_values(|k: String| k@)
}

fn summary_of(line: &[char]) -> (s: String)
    ensures
        s@ == key_summary(line@),
{
    let p = split_whitespace(line);
    assert(views(p@).len() == p@.len());
    if p.len() >= 3 {
        assert(views(p@)[0] == p@[0]@ && views(p@)[2] == p@[2]@);
        let mut s = string_from_chars(&p[0]);
        s.append(" ... ");
        push_chars(&mut s, &p[2]);
        s
    } else if p.len() == 2 {
        assert(views(p@)[0] == p@[0]@);
        string_from_chars(&p[0])
    } else {
        string_from_chars(line)
    }
}

fn keys_of(out: &[u8]) -> (r: Vec<String>)
    ensures
        key_views(r@) == ssh_keys(out@),
{
    let text = utf8_lossy_chars(out);
    let ls = lines_of(&text);
    let ghost lv = views(ls@);
    let mut r: Vec<String> = Vec::new();
    let mut i: usize = 0;
    while i < ls.len()
        invariant
            lv == views(ls@),
            i <= ls@.len(),
            key_views(r@) == lv.take(i as int).filter(nonempty()).map_values(|l: Seq<char>| key_summary(l)),
        decreases ls@.len() - i,
    {
        assert(lv[i as int] == ls@[i as int]@);
        assert(lv.take(i + 1) =~= lv.take(i as int).push(lv[i as int]));
        proof {
            lv.take(i as int).lemma_filter_push(lv[i as int], nonempty());
        }
        let ghost before = key_views(r@);
        if ls[i].len() > 0 {
            let k = summary_of(&ls[i]);
            r.push(k);
            assert(key_views(r@) =~= before.push(k@));
        }
        i = i + 1;
    }
    assert(lv.take(ls@.len() as int) =~= lv);
    r
}

/// The SSH agent state from `SSH_AUTH_SOCK` and `ssh-add -L` (its success and
/// output; `None` where it did not run): running when the socket is set, served
/// by gpg-agent when the socket path mentions `gpg-agent`; keys are read only
/// from a running agent and a successful listing.
pub fn get_ssh_config(ssh_auth_sock: Option<String>, ssh_add: Option<(bool, &[u8])>) -> (c: SshConfig)
    ensures
        c.agent_running == ssh_auth_sock.is_some(),
        c.gpg_agent_ssh == match opt_str(ssh_auth_sock) {
            Some(s) => contains(s, "gpg-agent"@),
            None => false,
        },
        opt_str(c.ssh_auth_sock) == opt_str(ssh_auth_sock),
        key_views(c.keys_available@) == match (ssh_auth_sock, ssh_add) {
            (Some(_), Some((true, out))) => ssh_keys(out@),
            _ => Seq::<Seq<char>>::empty(),
        },
{
    let gpg_agent_ssh = match &ssh_auth_sock {
        Some(s) => {
            let v = chars_of(s.as_str());
            contains_chars(&v, &chars_of("gpg-agent"))
        },
        None => false,
    };
    let agent_running = ssh_auth_sock.is_some();
    let keys_available: Vec<String> = if agent_running {
        match ssh_add {
            Some((true, out)) => keys_of(out),
            _ => {
                let e: Vec<String> = Vec::new();
                assert(key_views(e@) =~= Seq::<Seq<char>>::empty());
                e
            },
        }
    } else {
        let e: Vec<String> = Vec::new();
        assert(key_views(e@) =~= Seq::<Seq<char>>::empty());
        e
    };
    SshConfig { agent_running, gpg_agent_ssh, ssh_auth_sock, keys_available }
}

/// The result of `gpg --export-ssh-key`: its output as text where it succeeded.
pub fn export_ssh_key_output(success: bool, stdout: &[u8]) -> (r: Result<String, String>)
    ensures
        success ==> (r matches Ok(k) && k@ == utf8_lossy(stdout@)),
        !success ==> (r matches Err(e) && e@ == "Failed to export SSH key"@),
{
    if success {
        let t = utf8_lossy_chars(stdout);
        Ok(string_from_chars(t.as_slice()))
    } else {
        Err(String::from_str("Failed to export SSH key"))
    }
}

/// The shell setup that points SSH at gpg-agent's socket.
pub open spec fn ssh_agent_setup_text(socket: Seq<char>) -> Seq<Seq<char>> {
    seq![
        "\nTo configure SSH agent, add this to your shell config:"@,
        "  export SSH_AUTH_SOCK=\""@ + socket + "\""@,
        "\nThen restart your shell or run:"@,
        "  source ~/.bashrc  # or ~/.zshrc"@,
    ]
}

/// The instructions to print after `gpgconf --list-dirs agent-ssh-socket`: the
/// shell setup with the socket it printed (trimmed), or the error where it failed.
pub fn ssh_agent_setup_lines(success: bool, stdout: &[u8]) -> (r: Result<Vec<String>, String>)
    ensures
        success ==> (r matches Ok(v) && string_views(v@) == ssh_agent_setup_text(trim(utf8_lossy(stdout@)))),
        !success ==> (r matches Err(e) && e@ == "Failed to get GPG agent SSH socket path"@),
{
    if !success {
        return Err(String::from_str("Failed to get GPG agent SSH socket path"));
    }
    let t = utf8_lossy_chars(stdout);
    let socket = trim_chars(t.as_slice());
    let mut v: Vec<String> = Vec::new();
    push_line(&mut v, String::from_str("\nTo configure SSH agent, add this to your shell config:"));
    let mut export = String::from_str("  export SSH_AUTH_SOCK=\"");
    push_chars(&mut export, socket.as_slice());
    export.append("\"");
    push_line(&mut v, export);
    push_line(&mut v, String::from_str("\nThen restart your shell or run:"));
    push_line(&mut v, String::from_str("  source ~/.bashrc  # or ~/.zshrc"));
    assert(string_views(v@) =~= ssh_agent_setup_text(socket@));
    Ok(v)
}

} // verus!
