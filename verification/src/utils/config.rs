//! Where GnuPG keeps its files: `$GNUPGHOME`, else what `gpgconf` reports, else
//! the platform's default under the home directory.
use vstd::prelude::*;
use vstd::string::*;
use crate::text::{push_chars, trim, trim_chars, utf8_lossy, utf8_lossy_chars};

verus! {

/// A file name that `Path::join` appends as one component: not empty, with no
/// path separator and no drive colon, and not `.` or `..`.
pub open spec fn plain_name(name: Seq<char>) -> bool {
    &&& name.len() > 0
    &&& forall|i: int| 0 <= i < name.len() ==> name[i] != '/' && name[i] != '\\' && name[i] != ':'
    &&& name != seq!['.']
    &&& name != seq!['.', '.']
}

/// `PathBuf::push` of a plain name on Unix: appended directly where `base` is
/// empty or ends in `/`, else after a `/`.
pub open spec fn unix_joined(base: Seq<char>, name: Seq<char>) -> Seq<char> {
    if base.len() == 0 || base.last() == '/' {
        base + name
    } else {
        base + seq!['/'] + name
    }
}

/// A bare Windows drive: an ASCII letter and a colon, such as `C:`.
pub open spec fn drive_only(base: Seq<char>) -> bool {
    &&& base.len() == 2
    &&& base[1] == ':'
    &&& (('A' <= base[0] && base[0] <= 'Z') || ('a' <= base[0] && base[0] <= 'z'))
}

/// `PathBuf::push` of a plain name on Windows: appended directly where `base`
/// is empty, ends in `/` or `\`, or is a bare drive such as `C:`; else after a `\`.
pub open spec fn windows_joined(base: Seq<char>, name: Seq<char>) -> Seq<char> {
    if base.len() == 0 || base.last() == '/' || base.last() == '\\' || drive_only(base) {
        base + name
    } else {
        base + seq!['\\'] + name
    }
}

/// A Windows verbatim path (`\\?\...`), which `PathBuf::push` normalizes.
pub open spec fn verbatim(base: Seq<char>) -> bool {
    base.len() >= 4 && base.subrange(0, 4) == seq!['\\', '\\', '?', '\\']
}

/// `r` is `name` joined under `base` by the rule of the platform: Unix's, or
/// Windows' (for a base that is not a verbatim path).
pub open spec fn path_joined(base: Seq<char>, name: Seq<char>, r: Seq<char>) -> bool {
    ||| r == unix_joined(base, name)
    ||| (!verbatim(base) && r == windows_joined(base, name))
}

/// `Path::join(base, name)` as text, for a plain `name`. As std documents
/// `PathBuf::push`, the name is added after the platform's separator unless
/// `base` already ends in one (or is empty, or on Windows a bare drive); the
/// result is one of the two forms of [`path_joined`], the platform decides which.
/// For a Windows verbatim base, which std normalizes, nothing is stated.
#[verifier::external_body]
fn join_path(base: &str, name: &str) -> (r: String)
    requires
        plain_name(name@),
    ensures
        !verbatim(base@) ==> path_joined(base@, name@, r@),
{
    std::path::Path::new(base).join(name).to_string_lossy().into_owned()
}

/// What the machine says about GnuPG's directory.
#[derive(Debug)]
pub struct GnupgProbe {
    /// `$GNUPGHOME`, where it is set.
    pub env_gnupghome: Option<String>,
    /// `gpgconf --list-dirs homedir`, where it ran: whether it succeeded, and
    /// its standard output.
    pub gpgconf: Option<(bool, Vec<u8>)>,
    /// On Windows, the `gnupg` directory under the configuration directory,
    /// where it exists.
    pub windows_gnupg: Option<String>,
    /// The user's home directory, where known.
    pub home_dir: Option<String>,
}

/// The directory that `gpgconf` reported: its trimmed output, where it
/// succeeded and printed something.
pub open spec fn gpgconf_home(gpgconf: Option<(bool, Vec<u8>)>) -> Option<Seq<char>> {
    match gpgconf {
        Some((ok, out)) => if ok && trim(utf8_lossy(out@)).len() > 0 {
            Some(trim(utf8_lossy(out@)))
        } else {
            None
        },
        None => None,
    }
}

/// Nothing tells where GnuPG's directory is.
pub open spec fn no_gnupg_home(p: GnupgProbe) -> bool {
    &&& p.env_gnupghome is None
    &&& gpgconf_home(p.gpgconf) is None
    &&& p.windows_gnupg is None
    &&& p.home_dir is None
}

/// `f` is the file `name` in the directory `dir` (see [`path_joined`]; nothing is
/// said under a Windows verbatim directory).
pub open spec fn file_in(dir: Seq<char>, name: Seq<char>, f: Seq<char>) -> bool {
    verbatim(dir) || path_joined(dir, name, f)
}

/// `h` is GnuPG's directory by the probe: `$GNUPGHOME`, else `gpgconf`'s answer,
/// else the Windows directory, else `.gnupg` under the home directory.
pub open spec fn gnupg_home_is(p: GnupgProbe, h: Seq<char>) -> bool {
    match p.env_gnupghome {
        Some(v) => h == v@,
        None => match gpgconf_home(p.gpgconf) {
            Some(g) => h == g,
            None => match p.windows_gnupg {
                Some(w) => h == w@,
                None => match p.home_dir {
                    Some(d) => file_in(d@, ".gnupg"@, h),
                    None => false,
                },
            },
        },
    }
}

/// GnuPG's directory, or the error that no home directory is known.
pub fn gnupg_home(p: &GnupgProbe) -> (r: Result<String, String>)
    ensures
        match r {
            Ok(h) => gnupg_home_is(*p, h@),
            Err(e) => no_gnupg_home(*p) && e@ == "Could not determine home directory"@,
        },
{
    if let Some(v) = &p.env_gnupghome {
        return Ok(v.clone());
    }
    if let Some((ok, out)) = &p.gpgconf {
        if *ok {
            let text = utf8_lossy_chars(out.as_slice());
            let t = trim_chars(text.as_slice());
            if t.len() > 0 {
                let mut s = String::new();
                push_chars(&mut s, t.as_slice());
                return Ok(s);
            }
        }
    }
    if let Some(w) = &p.windows_gnupg {
        return Ok(w.clone());
    }
    match &p.home_dir {
        Some(d) => {
            proof {
                reveal_strlit(".gnupg");
                assert(".gnupg"@.len() != seq!['.'].len() && ".gnupg"@.len() != seq!['.', '.'].len());
            }
            Ok(join_path(d.as_str(), ".gnupg"))
        },
        None => Err(String::from_str("Could not determine home directory")),
    }
}

/// A file of GnuPG's directory, or the error of [`gnupg_home`].
fn gnupg_file(p: &GnupgProbe, name: &str) -> (r: Result<String, String>)
    requires
        plain_name(name@),
    ensures
        match r {
            Ok(f) => exists|h: Seq<char>| gnupg_home_is(*p, h) && #[trigger] file_in(h, name@, f@),
            Err(e) => no_gnupg_home(*p) && e@ == "Could not determine home directory"@,
        },
{
    match gnupg_home(p) {
        Ok(h) => {
            let f = join_path(h.as_str(), name);
            let r: Result<String, String> = Ok(f);
            assert(gnupg_home_is(*p, h@) && file_in(h@, name@, r->Ok_0@));
            r
        },
        Err(e) => Err(e),
    }
}

/// `gpg-agent.conf` in GnuPG's directory.
pub fn gpg_agent_conf(p: &GnupgProbe) -> (r: Result<String, String>)
    ensures
        match r {
            Ok(f) => exists|h: Seq<char>| gnupg_home_is(*p, h) && #[trigger] file_in(h, "gpg-agent.conf"@, f@),
            Err(e) => no_gnupg_home(*p) && e@ == "Could not determine home directory"@,
        },
{
    proof {
        reveal_strlit("gpg-agent.conf");
        assert("gpg-agent.conf"@.len() != seq!['.'].len() && "gpg-agent.conf"@.len() != seq!['.', '.'].len());
    }
    gnupg_file(p, "gpg-agent.conf")
}

/// `scdaemon.conf` in GnuPG's directory.
pub fn scdaemon_conf(p: &GnupgProbe) -> (r: Result<String, String>)
    ensures
        match r {
            Ok(f) => exists|h: Seq<char>| gnupg_home_is(*p, h) && #[trigger] file_in(h, "scdaemon.conf"@, f@),
            Err(e) => no_gnupg_home(*p) && e@ == "Could not determine home directory"@,
        },
{
    proof {
        reveal_strlit("scdaemon.conf");
        assert("scdaemon.conf"@.len() != seq!['.'].len() && "scdaemon.conf"@.len() != seq!['.', '.'].len());
    }
    gnupg_file(p, "scdaemon.conf")
}

} // verus!
