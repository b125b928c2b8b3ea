//! OATH screens: `otpauth://` URI import, secret masking and the add-account
//! wizard.
use vstd::prelude::*;
use vstd::string::*;
use vstd::utf8::*;
use crate::model::oath::{cred_views, OathAlgorithm, OathCredential, OathCredentialView, OathState, OathType};
use crate::clock::unix_now_secs;
use crate::text::{
    chars_of, decimal, is_char, is_literal, push_char, push_chars, split_by, split_char, split_once,
    split_once_chars, starts_with, starts_with_chars, case_lower, case_upper,
    push_decimal, string_from_chars, subvec, to_lowercase_chars, to_uppercase_chars, trim, trim_chars, views,
    ascii_lowered, ascii_upper, is_first, is_ws, lemma_first_index, lemma_split_by_plain_tail,
    lemma_trim_of_trimmed,
};
use crate::tui::widgets::pin_input::{edit, edited, PinKey};
use crate::tui::fido2::byte_len;
use crate::tui::keys::push_line;
use crate::model::pin_operations::string_views;

verus! {

/// The value of a hexadecimal digit (`char::to_digit(16)`).
pub open spec fn hex_value(c: char) -> Option<nat> {
    if '0' <= c && c <= '9' {
        Some((c as nat - '0' as nat) as nat)
    } else if 'a' <= c && c <= 'f' {
        Some((c as nat - 'a' as nat + 10) as nat)
    } else if 'A' <= c && c <= 'F' {
        Some((c as nat - 'A' as nat + 10) as nat)
    } else {
        None
    }
}

/// Percent-decoding as the import screen does it: `%XX` with two hex digits
/// whose value is printable ASCII (0x20 to 0x7E) becomes that character; any
/// other `%` is left as it is, with what follows it read on as text (so a
/// `%XX` that is not decoded stays as its three characters); `+` becomes a space.
pub open spec fn percent_decoded(s: Seq<char>) -> Seq<char>
    decreases s.len(),
{
    if s.len() == 0 {
        Seq::empty()
    } else if s[0] == '%' && s.len() >= 3 && hex_value(s[1]) is Some && hex_value(s[2]) is Some
        && 0x20 <= hex_value(s[1]).unwrap() * 16 + hex_value(s[2]).unwrap() <= 0x7e {
        seq![(hex_value(s[1]).unwrap() * 16 + hex_value(s[2]).unwrap()) as char]
            + percent_decoded(s.skip(3))
    } else if s[0] == '+' {
        seq![' '] + percent_decoded(s.skip(1))
    } else {
        seq![s[0]] + percent_decoded(s.skip(1))
    }
}

fn hex_value_exec(c: char) -> (r: Option<u32>)
    ensures
        match r {
            Some(v) => hex_value(c) == Some(v as nat),
            None => hex_value(c) is None,
        },
{
    if '0' <= c && c <= '9' {
        Some((c as u32) - ('0' as u32))
    } else if 'a' <= c && c <= 'f' {
        Some((c as u32) - ('a' as u32) + 10)
    } else if 'A' <= c && c <= 'F' {
        Some((c as u32) - ('A' as u32) + 10)
    } else {
        None
    }
}

/// Percent-decodes text (see [`percent_decoded`]).
pub fn percent_decode(s: &[char]) -> (out: Vec<char>)
    ensures
        out@ == percent_decoded(s@),
{
    let n = s.len();
    let mut out: Vec<char> = Vec::new();
    let mut i: usize = 0;
    assert(s@.skip(0) =~= s@);
    assert(out@ + percent_decoded(s@) =~= percent_decoded(s@));
    while i < n
        invariant
            n == s@.len(),
            i <= n,
            out@ + percent_decoded(s@.skip(i as int)) == percent_decoded(s@),
        decreases n - i,
    {
        let ghost rest = s@.skip(i as int);
        let c = s[i];
        assert(rest[0] == c);
        let mut decoded: Option<char> = None;
        if c == '%' && n - i >= 3 {
            match (hex_value_exec(s[i + 1]), hex_value_exec(s[i + 2])) {
                (Some(h), Some(l)) => {
                    if 0x20 <= h * 16 + l && h * 16 + l <= 0x7e {
                        decoded = Some(char_from_ascii((h * 16 + l) as u8));
                    }
                },
                _ => {},
            }
        }
        if let Some(d) = decoded {
            out.push(d);
            assert(rest.skip(3) =~= s@.skip(i + 3));
            i = i + 3;
        } else if c == '+' {
            out.push(' ');
            assert(rest.skip(1) =~= s@.skip(i + 1));
            i = i + 1;
        } else {
            out.push(c);
            assert(rest.skip(1) =~= s@.skip(i + 1));
            i = i + 1;
        }
    }
    assert(out@ + Seq::<char>::empty() =~= out@);
    out
}

fn char_from_ascii(b: u8) -> (c: char)
    requires
        b < 128,
    ensures
        c == (b as nat) as char,
{
    b as char
}

/// A credential read from an `otpauth://` URI.
#[derive(Debug)]
pub struct ParsedOtpAuth {
    /// The name stored on the key: `issuer:account`, or whichever of the two is
    /// not empty.
    pub name: String,
    pub issuer: String,
    pub account: String,
    /// Upper-cased Base32 secret.
    pub secret: String,
    pub algorithm: OathAlgorithm,
    pub oath_type: OathType,
}

/// The mathematical value of a [`ParsedOtpAuth`].
pub struct ParsedOtpAuthView {
    pub name: Seq<char>,
    pub issuer: Seq<char>,
    pub account: Seq<char>,
    pub secret: Seq<char>,
    pub algorithm: OathAlgorithm,
    pub oath_type: OathType,
}

impl View for ParsedOtpAuth {
    type V = ParsedOtpAuthView;

    open spec fn view(&self) -> ParsedOtpAuthView {
        ParsedOtpAuthView {
            name: self.name@,
            issuer: self.issuer@,
            account: self.account@,
            secret: self.secret@,
            algorithm: self.algorithm,
            oath_type: self.oath_type,
        }
    }
}

impl ParsedOtpAuth {
    /// A copy of the credential.
    pub fn copy(&self) -> (c: Self)
        ensures
            c@ == self@,
    {
        ParsedOtpAuth {
            name: self.name.clone(),
            issuer: self.issuer.clone(),
            account: self.account.clone(),
            secret: self.secret.clone(),
            algorithm: self.algorithm,
            oath_type: self.oath_type,
        }
    }
}

/// The query parameters that matter.
pub struct UriParams {
    pub secret: Option<Seq<char>>,
    pub issuer: Option<Seq<char>>,
    pub algorithm: OathAlgorithm,
}

/// The algorithm a parameter value names (SHA-1 unless SHA-256 or SHA-512).
pub open spec fn algorithm_named(v: Seq<char>) -> OathAlgorithm {
    let u = case_upper(v);
    if u == "SHA256"@ || u == "SHA-256"@ {
        OathAlgorithm::Sha256
    } else if u == "SHA512"@ || u == "SHA-512"@ {
        OathAlgorithm::Sha512
    } else {
        OathAlgorithm::Sha1
    }
}

/// One `key=value` pair: the key is lower-cased and the value percent-decoded;
/// `secret` (upper-cased), `issuer` and `algorithm` are kept, other keys and
/// pairs without `=` are ignored.
pub open spec fn apply_param(p: UriParams, pair: Seq<char>) -> UriParams {
    match split_once(pair, '=') {
        Some((k, v)) => {
            let key = case_lower(k);
            let value = percent_decoded(v);
            if key == "secret"@ {
                UriParams { secret: Some(case_upper(value)), ..p }
            } else if key == "issuer"@ {
                UriParams { issuer: Some(value), ..p }
            } else if key == "algorithm"@ {
                UriParams { algorithm: algorithm_named(value), ..p }
            } else {
                p
            }
        },
        None => p,
    }
}

/// The parameters of a sequence of pairs, later pairs winning.
pub open spec fn fold_params(pairs: Seq<Seq<char>>) -> UriParams
    decreases pairs.len(),
{
    if pairs.len() == 0 {
        UriParams { secret: None, issuer: None, algorithm: OathAlgorithm::Sha1 }
    } else {
        apply_param(fold_params(pairs.drop_last()), pairs.last())
    }
}

/// A Base32 secret character: `A`-`Z`, `2`-`7` or `=`.
pub open spec fn is_base32_char(c: char) -> bool {
    ('A' <= c && c <= 'Z') || ('2' <= c && c <= '7') || c == '='
}

/// Every character is a Base32 secret character.
pub open spec fn all_base32(s: Seq<char>) -> bool {
    forall|i: int| 0 <= i < s.len() ==> is_base32_char(#[trigger] s[i])
}

/// Issuer and account from the decoded label and the `issuer` parameter: the
/// parameter wins, and the label's part after a colon (or all of it) is the
/// account; without the parameter a colon splits issuer from account. Both are
/// trimmed, except a parameter issuer.
pub open spec fn issuer_account(label: Seq<char>, issuer_param: Option<Seq<char>>) -> (
    Seq<char>,
    Seq<char>,
) {
    match issuer_param {
        Some(iss) => match split_once(label, ':') {
            Some((_, acc)) => (iss, trim(acc)),
            None => (iss, trim(label)),
        },
        None => match split_once(label, ':') {
            Some((iss, acc)) => (trim(iss), trim(acc)),
            None => (Seq::empty(), trim(label)),
        },
    }
}

/// The stored name of a credential with this issuer and account.
pub open spec fn credential_name(issuer: Seq<char>, account: Seq<char>) -> Seq<char> {
    if issuer.len() == 0 {
        account
    } else if account.len() == 0 {
        issuer
    } else {
        issuer + ":"@ + account
    }
}

/// What importing an `otpauth://TYPE/LABEL?QUERY` URI gives: the trimmed URI
/// must start with `otpauth://` and have a `/` before any `?`; TYPE is `totp` or
/// `hotp` in any case; the secret must be present, non-empty and Base32; the
/// name must not be empty.
pub open spec fn otpauth_of(uri: Seq<char>) -> Result<ParsedOtpAuthView, Seq<char>> {
    let t = trim(uri);
    if !starts_with(t, "otpauth://"@) {
        Err("URI must start with otpauth://"@)
    } else {
        let rest = t.skip(10);
        let (type_and_label, query) = match split_once(rest, '?') {
            Some((a, b)) => (a, b),
            None => (rest, Seq::empty()),
        };
        match split_once(type_and_label, '/') {
            None => Err("URI must contain a label after the type"@),
            Some((type_str, label_encoded)) => {
                let lt = case_lower(type_str);
                if lt != "totp"@ && lt != "hotp"@ {
                    Err("Unknown OATH type '"@ + lt + "' (expected totp or hotp)"@)
                } else {
                    let oath_type = if lt == "totp"@ {
                        OathType::Totp
                    } else {
                        OathType::Hotp
                    };
                    otpauth_tail(
                        percent_decoded(label_encoded),
                        fold_params(split_by(query, is_char('&'))),
                        oath_type,
                    )
                }
            },
        }
    }
}

/// The part of [`otpauth_of`] after the type: the secret checks, the issuer and
/// account, and the name.
pub open spec fn otpauth_tail(label: Seq<char>, p: UriParams, oath_type: OathType) -> Result<
    ParsedOtpAuthView,
    Seq<char>,
> {
    match p.secret {
        None => Err("URI missing 'secret' parameter"@),
        Some(secret) => if secret.len() == 0 {
            Err("Secret key cannot be empty"@)
        } else if !all_base32(secret) {
            Err("Secret must be Base32 encoded (A-Z, 2-7, =)"@)
        } else {
            let (issuer, account) = issuer_account(label, p.issuer);
            let name = credential_name(issuer, account);
            if name.len() == 0 {
                Err("Could not determine credential name from URI"@)
            } else {
                Ok(
                    ParsedOtpAuthView {
                        name,
                        issuer,
                        account,
                        secret,
                        algorithm: p.algorithm,
                        oath_type,
                    },
                )
            }
        },
    }
}

fn algorithm_of(v: &[char]) -> (a: OathAlgorithm)
    ensures
        a == algorithm_named(v@),
{
    let u = to_uppercase_chars(v);
    if is_literal(&u, "SHA256") || is_literal(&u, "SHA-256") {
        OathAlgorithm::Sha256
    } else if is_literal(&u, "SHA512") || is_literal(&u, "SHA-512") {
        OathAlgorithm::Sha512
    } else {
        OathAlgorithm::Sha1
    }
}

spec fn opt_chars(o: Option<Vec<char>>) -> Option<Seq<char>> {
    match o {
        Some(v) => Some(v@),
        None => None,
    }
}

fn parse_params(query: &[char]) -> (r: (Option<Vec<char>>, Option<Vec<char>>, OathAlgorithm))
    ensures
        fold_params(split_by(query@, is_char('&'))) == (UriParams {
            secret: opt_chars(r.0),
            issuer: opt_chars(r.1),
            algorithm: r.2,
        }),
{
    let pairs = split_char(query, '&');
    let ghost pv = views(pairs@);
    let mut secret: Option<Vec<char>> = None;
    let mut issuer_param: Option<Vec<char>> = None;
    let mut algorithm = OathAlgorithm::Sha1;
    let np = pairs.len();
    let mut i: usize = 0;
    while i < np
        invariant
            np == pv.len(),
            pv == views(pairs@),
            i <= np,
            fold_params(pv.take(i as int)) == (UriParams {
                secret: opt_chars(secret),
                issuer: opt_chars(issuer_param),
                algorithm,
            }),
        decreases np - i,
    {
        assert(pv.take(i + 1).drop_last() =~= pv.take(i as int));
        assert(pv[i as int] == pairs[i as int]@);
        match split_once_chars(&pairs[i], '=') {
            Some((k, v)) => {
                let key = to_lowercase_chars(&k);
                let value = percent_decode(&v);
                if is_literal(&key, "secret") {
                    secret = Some(to_uppercase_chars(&value));
                } else if is_literal(&key, "issuer") {
                    issuer_param = Some(value);
                } else if is_literal(&key, "algorithm") {
                    algorithm = algorithm_of(&value);
                }
            },
            None => {},
        }
        i = i + 1;
    }
    assert(pv.take(np as int) =~= pv);
    (secret, issuer_param, algorithm)
}

fn check_base32(secret: &[char]) -> (b: bool)
    ensures
        b == all_base32(secret@),
{
    let mut j: usize = 0;
    while j < secret.len()
        invariant
            j <= secret@.len(),
            forall|k: int| 0 <= k < j ==> is_base32_char(#[trigger] secret@[k]),
        decreases secret@.len() - j,
    {
        let c = secret[j];
        if !(('A' <= c && c <= 'Z') || ('2' <= c && c <= '7') || c == '=') {
            assert(!is_base32_char(secret@[j as int]));
            return false;
        }
        j = j + 1;
    }
    true
}

fn name_of(issuer: &[char], account: &[char]) -> (name: Vec<char>)
    ensures
        name@ == credential_name(issuer@, account@),
{
    if issuer.len() == 0 {
        let r = subvec(account, 0, account.len());
        assert(account@.subrange(0, account@.len() as int) =~= account@);
        r
    } else if account.len() == 0 {
        let r = subvec(issuer, 0, issuer.len());
        assert(issuer@.subrange(0, issuer@.len() as int) =~= issuer@);
        r
    } else {
        let mut n = subvec(issuer, 0, issuer.len());
        assert(issuer@.subrange(0, issuer@.len() as int) =~= issuer@);
        n.push(':');
        let mut k: usize = 0;
        while k < account.len()
            invariant
                k <= account@.len(),
                n@ == issuer@ + seq![':'] + account@.subrange(0, k as int),
            decreases account@.len() - k,
        {
            n.push(account[k]);
            k = k + 1;
            assert(n@ =~= issuer@ + seq![':'] + account@.subrange(0, k as int));
        }
        assert(account@.subrange(0, account@.len() as int) =~= account@);
        proof {
            reveal_strlit(":");
        }
        assert(n@ =~= issuer@ + ":"@ + account@);
        n
    }
}

fn finish_uri(
    label: &[char],
    secret: Option<Vec<char>>,
    issuer_param: Option<Vec<char>>,
    algorithm: OathAlgorithm,
    oath_type: OathType,
) -> (r: Result<ParsedOtpAuth, String>)
    ensures
        match r {
            Ok(p) => otpauth_tail(
                label@,
                UriParams { secret: opt_chars(secret), issuer: opt_chars(issuer_param), algorithm },
                oath_type,
            ) == Ok::<ParsedOtpAuthView, Seq<char>>(p@),
            Err(e) => otpauth_tail(
                label@,
                UriParams { secret: opt_chars(secret), issuer: opt_chars(issuer_param), algorithm },
                oath_type,
            ) == Err::<ParsedOtpAuthView, Seq<char>>(e@),
        },
{
    let secret = match secret {
        Some(s) => s,
        None => return Err(String::from_str("URI missing 'secret' parameter")),
    };
    if secret.len() == 0 {
        return Err(String::from_str("Secret key cannot be empty"));
    }
    if !check_base32(&secret) {
        return Err(String::from_str("Secret must be Base32 encoded (A-Z, 2-7, =)"));
    }
    let (issuer, account) = match issuer_param {
        Some(iss) => {
            let acc = match split_once_chars(label, ':') {
                Some((_, a)) => trim_chars(&a),
                None => trim_chars(label),
            };
            (iss, acc)
        },
        None => match split_once_chars(label, ':') {
            Some((a, b)) => (trim_chars(&a), trim_chars(&b)),
            None => (Vec::new(), trim_chars(label)),
        },
    };
    let name = name_of(&issuer, &account);
    if name.len() == 0 {
        return Err(String::from_str("Could not determine credential name from URI"));
    }
    Ok(
        ParsedOtpAuth {
            name: string_from_chars(&name),
            issuer: string_from_chars(&issuer),
            account: string_from_chars(&account),
            secret: string_from_chars(&secret),
            algorithm,
            oath_type,
        },
    )
}

/// Reads an `otpauth://` URI (see [`otpauth_of`]).
pub fn parse_otpauth_uri(uri: &str) -> (r: Result<ParsedOtpAuth, String>)
    ensures
        match r {
            Ok(p) => otpauth_of(uri@) == Ok::<ParsedOtpAuthView, Seq<char>>(p@),
            Err(e) => otpauth_of(uri@) == Err::<ParsedOtpAuthView, Seq<char>>(e@),
        },
{
    let all = chars_of(uri);
    let t = trim_chars(&all);
    let prefix = chars_of("otpauth://");
    if !starts_with_chars(&t, &prefix) {
        return Err(String::from_str("URI must start with otpauth://"));
    }
    proof {
        reveal_strlit("otpauth://");
    }
    let rest = subvec(&t, 10, t.len());
    assert(rest@ =~= t@.skip(10));
    let (type_and_label, query) = match split_once_chars(&rest, '?') {
        Some((a, b)) => (a, b),
        None => (subvec(&rest, 0, rest.len()), Vec::new()),
    };
    assert(rest@.subrange(0, rest@.len() as int) =~= rest@);
    let (type_str, label_encoded) = match split_once_chars(&type_and_label, '/') {
        Some((a, b)) => (a, b),
        None => return Err(String::from_str("URI must contain a label after the type")),
    };
    let lt = to_lowercase_chars(&type_str);
    let oath_type = if is_literal(&lt, "totp") {
        OathType::Totp
    } else if is_literal(&lt, "hotp") {
        OathType::Hotp
    } else {
        let mut e = String::from_str("Unknown OATH type '");
        push_chars(&mut e, &lt);
        e.append("' (expected totp or hotp)");
        return Err(e);
    };
    let label = percent_decode(&label_encoded);
    let (secret, issuer_param, algorithm) = parse_params(&query);
    finish_uri(&label, secret, issuer_param, algorithm, oath_type)
}

/// An imported credential always has a non-empty name and a non-empty Base32
/// secret, and an `issuer` parameter is the issuer whatever the label says.
pub proof fn lemma_import_result(uri: Seq<char>)
    ensures
        otpauth_of(uri) matches Ok(p) ==> p.name.len() > 0 && p.secret.len() > 0 && all_base32(p.secret),
{
}

/// An `issuer` query parameter takes precedence over an issuer in the label.
pub proof fn lemma_issuer_param_wins(label: Seq<char>, p: UriParams, t: OathType, iss: Seq<char>)
    requires
        p.issuer == Some(iss),
    ensures
        otpauth_tail(label, p, t) matches Ok(v) ==> v.issuer == iss,
{
}

/// How a decoded label is split, for a valid secret: an `issuer` parameter is the
/// issuer, else the label's part before its first colon (trimmed), or none; the
/// account is the label's part after its first colon, or the whole label,
/// trimmed; the name is `issuer:account` when both are present. The import
/// succeeds exactly when that name is not empty.
pub proof fn lemma_label_split(label: Seq<char>, p: UriParams, t: OathType, secret: Seq<char>)
    requires
        p.secret == Some(secret),
        secret.len() > 0,
        all_base32(secret),
    ensures
        otpauth_tail(label, p, t) is Ok == (credential_name(
            issuer_account(label, p.issuer).0,
            issuer_account(label, p.issuer).1,
        ).len() > 0),
        otpauth_tail(label, p, t) matches Ok(v) ==> {
            &&& v.issuer == match p.issuer {
                Some(i) => i,
                None => match split_once(label, ':') {
                    Some((iss, _)) => trim(iss),
                    None => Seq::empty(),
                },
            }
            &&& v.account == match split_once(label, ':') {
                Some((_, acc)) => trim(acc),
                None => trim(label),
            }
            &&& (v.issuer.len() > 0 && v.account.len() > 0 ==> v.name == v.issuer + ":"@ + v.account)
            &&& v.secret == secret && v.algorithm == p.algorithm && v.oath_type == t
        },
{
}

/// Without a pair whose lower-cased key is `algorithm`, the algorithm is SHA-1.
pub proof fn lemma_default_sha1(pairs: Seq<Seq<char>>)
    requires
        forall|i: int|
            0 <= i < pairs.len() ==> !(split_once(#[trigger] pairs[i], '=') matches Some((k, _))
                && case_lower(k) == "algorithm"@),
    ensures
        fold_params(pairs).algorithm == OathAlgorithm::Sha1,
    decreases pairs.len(),
{
    if pairs.len() > 0 {
        assert forall|i: int| 0 <= i < pairs.drop_last().len() implies !(split_once(
            #[trigger] pairs.drop_last()[i],
            '=',
        ) matches Some((k, _)) && case_lower(k) == "algorithm"@) by {
            assert(pairs.drop_last()[i] == pairs[i]);
        }
        lemma_default_sha1(pairs.drop_last());
        assert(!(split_once(pairs[pairs.len() - 1], '=') matches Some((k, _)) && case_lower(k)
            == "algorithm"@));
    }
}

/// Text without `%` and `+` is left as it is by percent-decoding.
pub proof fn lemma_plain_text_unchanged(s: Seq<char>)
    requires
        forall|i: int| 0 <= i < s.len() ==> #[trigger] s[i] != '%' && s[i] != '+',
    ensures
        percent_decoded(s) == s,
    decreases s.len(),
{
    if s.len() > 0 {
        assert forall|i: int| 0 <= i < s.skip(1).len() implies #[trigger] s.skip(1)[i] != '%' && s.skip(1)[i]
            != '+' by {
            assert(s.skip(1)[i] == s[i + 1]);
        }
        lemma_plain_text_unchanged(s.skip(1));
        assert(s[0] != '%' && s[0] != '+');
        assert(seq![s[0]] + s.skip(1) =~= s);
    }
}

/// Every character of `s` differs from `c`.
pub open spec fn lacks(s: Seq<char>, c: char) -> bool {
    forall|i: int| 0 <= i < s.len() ==> s[i] != c
}

/// The query of a plainly written TOTP URI: `secret=S`, then `&issuer=I` where
/// an issuer is given.
pub open spec fn plain_totp_query(secret: Seq<char>, issuer: Option<Seq<char>>) -> Seq<char> {
    match issuer {
        Some(i) => "secret="@ + secret + "&issuer="@ + i,
        None => "secret="@ + secret,
    }
}

/// Lower-case ASCII letters are their own lower case.
proof fn lemma_lower_word(s: Seq<char>)
    requires
        forall|i: int| 0 <= i < s.len() ==> 'a' <= #[trigger] s[i] <= 'z',
    ensures
        case_lower(s) == s,
        forall|i: int| 0 <= i < s.len() ==> s[i] != '=' && s[i] != '&' && s[i] != '?' && s[i] != '/',
{
    assert(is_ascii_chars(s));
    assert(ascii_lowered(s) =~= s);
}

/// A Base32 secret is its own upper case and its own percent-decoding, and has
/// no `&` and no whitespace.
proof fn lemma_base32_plain(s: Seq<char>)
    requires
        all_base32(s),
    ensures
        case_upper(s) == s,
        percent_decoded(s) == s,
        forall|i: int| 0 <= i < s.len() ==> #[trigger] s[i] != '&' && !is_ws(s[i]),
{
    assert forall|i: int| 0 <= i < s.len() implies '\0' <= #[trigger] s[i] <= '\u{7f}' && s[i] != '%'
        && s[i] != '+' by {
        assert(is_base32_char(s[i]));
    }
    assert(is_ascii_chars(s));
    assert(s.map_values(|c: char| ascii_upper(c)) =~= s);
    lemma_plain_text_unchanged(s);
}

/// `key=value`, with a key of lower-case letters, splits at the `=` after the key.
proof fn lemma_pair_split(key: Seq<char>, v: Seq<char>)
    requires
        forall|i: int| 0 <= i < key.len() ==> 'a' <= #[trigger] key[i] <= 'z',
    ensures
        split_once(key + seq!['='] + v, '=') == Some((key, v)),
{
    let p = key + seq!['='] + v;
    lemma_lower_word(key);
    assert(is_first(p, '=', key.len() as int));
    lemma_first_index(p, '=', key.len() as int);
    assert(p.subrange(0, key.len() as int) =~= key);
    assert(p.subrange(key.len() as int + 1, p.len() as int) =~= v);
}

/// `otpauth://totp/LABEL?QUERY`, for a label without `%`, `+` and `?` and a
/// query that does not end in whitespace, is the label with the query's pairs.
proof fn lemma_totp_uri_shape(label: Seq<char>, q: Seq<char>)
    requires
        lacks(label, '%'),
        lacks(label, '+'),
        lacks(label, '?'),
        q.len() > 0,
        !is_ws(q.last()),
    ensures
        otpauth_of("otpauth://totp/"@ + label + "?"@ + q) == otpauth_tail(
            label,
            fold_params(split_by(q, is_char('&'))),
            OathType::Totp,
        ),
{
    reveal_strlit("otpauth://totp/");
    reveal_strlit("otpauth://");
    reveal_strlit("?");
    reveal_strlit("totp");
    let uri = "otpauth://totp/"@ + label + "?"@ + q;
    lemma_lower_word("totp"@);
    assert(uri.last() == q.last());
    lemma_trim_of_trimmed(uri);
    assert(uri.subrange(0, 10) =~= "otpauth://"@);
    let a = seq!['t', 'o', 't', 'p', '/'] + label;
    let rest = uri.skip(10);
    assert(rest =~= a + seq!['?'] + q);
    assert forall|j: int| 0 <= j < a.len() implies rest[j] != '?' by {
        if j >= 5 {
            assert(rest[j] == label[j - 5]);
        }
    }
    assert(is_first(rest, '?', a.len() as int));
    lemma_first_index(rest, '?', a.len() as int);
    assert(rest.subrange(0, a.len() as int) =~= a);
    assert(rest.subrange(a.len() as int + 1, rest.len() as int) =~= q);
    assert(is_first(a, '/', 4));
    lemma_first_index(a, '/', 4);
    assert(a.subrange(0, 4) =~= "totp"@);
    assert(a.subrange(5, a.len() as int) =~= label);
    lemma_plain_text_unchanged(label);
}

/// The pair `secret=S`, for a Base32 `S`, sets the secret to `S`.
proof fn lemma_secret_pair(p: UriParams, secret: Seq<char>)
    requires
        all_base32(secret),
    ensures
        apply_param(p, "secret="@ + secret) == (UriParams { secret: Some(secret), ..p }),
{
    reveal_strlit("secret=");
    reveal_strlit("secret");
    lemma_base32_plain(secret);
    lemma_lower_word("secret"@);
    assert("secret="@ + secret =~= "secret"@ + seq!['='] + secret);
    lemma_pair_split("secret"@, secret);
}

/// The pair `issuer=I`, for an `I` without `%` and `+`, sets the issuer to `I`.
proof fn lemma_issuer_pair(p: UriParams, i: Seq<char>)
    requires
        lacks(i, '%'),
        lacks(i, '+'),
    ensures
        apply_param(p, "issuer"@ + seq!['='] + i) == (UriParams { issuer: Some(i), ..p }),
{
    reveal_strlit("secret");
    reveal_strlit("issuer");
    lemma_lower_word("issuer"@);
    lemma_pair_split("issuer"@, i);
    lemma_plain_text_unchanged(i);
    assert("issuer"@ != "secret"@) by {
        assert("issuer"@[0] != "secret"@[0]);
    }
}

/// The pairs of a plain TOTP query set the secret and, where given, the issuer;
/// the query does not end in whitespace.
proof fn lemma_plain_query(secret: Seq<char>, issuer: Option<Seq<char>>)
    requires
        secret.len() > 0,
        all_base32(secret),
        issuer matches Some(i) ==> lacks(i, '&') && lacks(i, '%') && lacks(i, '+') && (i.len() > 0
            ==> !is_ws(i.last())),
    ensures
        fold_params(split_by(plain_totp_query(secret, issuer), is_char('&'))) == (UriParams {
            secret: Some(secret),
            issuer,
            algorithm: OathAlgorithm::Sha1,
        }),
        plain_totp_query(secret, issuer).len() > 0,
        !is_ws(plain_totp_query(secret, issuer).last()),
{
    reveal_strlit("secret=");
    reveal_strlit("&issuer=");
    reveal_strlit("issuer");
    let sep = is_char('&');
    let q = plain_totp_query(secret, issuer);
    lemma_base32_plain(secret);
    let p1 = "secret="@ + secret;
    assert forall|k: int| 0 <= k < p1.len() implies !sep(#[trigger] p1[k]) by {
        if k >= 7 {
            assert(p1[k] == secret[k - 7]);
        }
    }
    lemma_split_by_plain_tail(Seq::empty(), p1, sep);
    assert(Seq::<char>::empty() + p1 =~= p1);
    assert(split_by(p1, sep) =~= seq![p1]);
    let empty_params = fold_params(Seq::empty());
    lemma_secret_pair(empty_params, secret);
    assert(seq![p1].drop_last() =~= Seq::<Seq<char>>::empty());
    assert(fold_params(seq![p1]) == UriParams { secret: Some(secret), ..empty_params });
    match issuer {
        None => {
            assert(q.last() == secret[secret.len() - 1]);
        },
        Some(i) => {
            let p2 = "issuer"@ + seq!['='] + i;
            assert(q =~= p1.push('&') + p2);
            if i.len() > 0 {
                assert(q.last() == i.last());
            } else {
                assert(q.last() == '=');
            }
            assert forall|k: int| 0 <= k < p2.len() implies !sep(#[trigger] p2[k]) by {
                if k >= 7 {
                    assert(p2[k] == i[k - 7]);
                }
            }
            assert(p1.push('&').drop_last() =~= p1);
            assert(split_by(p1.push('&'), sep) =~= seq![p1, Seq::empty()]);
            lemma_split_by_plain_tail(p1.push('&'), p2, sep);
            assert(Seq::<char>::empty() + p2 =~= p2);
            assert(split_by(q, sep) =~= seq![p1, p2]);
            assert(seq![p1, p2].drop_last() =~= seq![p1]);
            lemma_issuer_pair(fold_params(seq![p1]), i);
        },
    }
}

/// A plainly written TOTP URI, `otpauth://totp/LABEL?secret=S` with an optional
/// `&issuer=I`, imports as its label and parameters say: for a label without `%`,
/// `+` and `?`, a non-empty Base32 secret, and an issuer without `&`, `%` and `+`
/// that does not end in whitespace, the result is [`otpauth_tail`] of the label,
/// that secret and issuer, and SHA-1: it succeeds exactly when the name is not
/// empty, with the issuer and account of [`issuer_account`] (the `issuer`
/// parameter, else the label's part before its first colon; the account after
/// that colon, or the whole label, trimmed) and the name `issuer:account`.
pub proof fn lemma_plain_totp_uri(label: Seq<char>, secret: Seq<char>, issuer: Option<Seq<char>>)
    requires
        lacks(label, '%'),
        lacks(label, '+'),
        lacks(label, '?'),
        secret.len() > 0,
        all_base32(secret),
        issuer matches Some(i) ==> lacks(i, '&') && lacks(i, '%') && lacks(i, '+') && (i.len() > 0
            ==> !is_ws(i.last())),
    ensures
        otpauth_of("otpauth://totp/"@ + label + "?"@ + plain_totp_query(secret, issuer))
            == otpauth_tail(
            label,
            UriParams { secret: Some(secret), issuer, algorithm: OathAlgorithm::Sha1 },
            OathType::Totp,
        ),
        ({
            let r = otpauth_of("otpauth://totp/"@ + label + "?"@ + plain_totp_query(secret, issuer));
            let (iss, acc) = issuer_account(label, issuer);
            &&& r is Ok == (credential_name(iss, acc).len() > 0)
            &&& r matches Ok(v) ==> v.issuer == iss && v.account == acc && v.name
                == credential_name(iss, acc) && v.secret == secret && v.algorithm
                == OathAlgorithm::Sha1 && v.oath_type == OathType::Totp
        }),
{
    lemma_plain_query(secret, issuer);
    lemma_totp_uri_shape(label, plain_totp_query(secret, issuer));
}

/// The OATH list's cursor.
#[derive(Debug, Clone, Copy, PartialEq, Eq, Structural)]
pub struct OathTuiState {
    pub selected_index: usize,
    pub scroll_offset: usize,
}

impl Default for OathTuiState {
    /// At the top.
    fn default() -> (s: Self)
        ensures
            s == (OathTuiState { selected_index: 0, scroll_offset: 0 }),
    {
        OathTuiState { selected_index: 0, scroll_offset: 0 }
    }
}

/// The steps of the add-account wizard.
#[derive(Debug, Clone, Copy, PartialEq, Eq, Structural)]
pub enum AddAccountStep {
    Issuer,
    AccountName,
    Secret,
    TypeSelect,
    Confirm,
}

/// What the add-account wizard has gathered.
#[derive(Debug)]
pub struct AddAccountState {
    pub step: AddAccountStep,
    pub issuer: String,
    pub account_name: String,
    pub secret_b32: String,
    pub oath_type: OathType,
    pub error_message: Option<String>,
}

impl Default for AddAccountState {
    /// At the issuer step, nothing entered, TOTP.
    fn default() -> (s: Self)
        ensures
            s.step == AddAccountStep::Issuer,
            s.issuer@.len() == 0 && s.account_name@.len() == 0 && s.secret_b32@.len() == 0,
            s.oath_type == OathType::Totp,
            s.error_message.is_none(),
    {
        AddAccountState {
            step: AddAccountStep::Issuer,
            issuer: String::new(),
            account_name: String::new(),
            secret_b32: String::new(),
            oath_type: OathType::Totp,
            error_message: None,
        }
    }
}

/// What the wizard asks the application to do after a step.
#[derive(Debug)]
pub enum AddAccountEffect {
    /// Show the wizard again.
    Redraw,
    /// Store this credential (SHA-1, 6 digits) on the key.
    PutCredential { name: String, secret: String, oath_type: OathType },
}

/// The name the wizard stores: `issuer:account`, or the account alone without
/// an issuer.
pub open spec fn wizard_name(issuer: Seq<char>, account: Seq<char>) -> Seq<char> {
    if issuer.len() == 0 {
        account
    } else {
        issuer + ":"@ + account
    }
}

/// Enter in the add-account wizard with `input` typed: the issuer is taken as
/// it is; an empty account name or secret is refused with a message and the
/// step stays; the type step moves to confirmation; confirmation asks to store
/// the credential. A step that takes the input clears it.
pub fn advance_step(state: &mut AddAccountState, input: &mut String) -> (e: AddAccountEffect)
    ensures
        old(state).step == AddAccountStep::Issuer ==> final(state).step == AddAccountStep::AccountName
            && final(state).issuer@ == old(input)@ && final(input)@.len() == 0 && e is Redraw,
        old(state).step == AddAccountStep::AccountName && old(input)@.len() == 0 ==> final(state).step
            == AddAccountStep::AccountName && opt_str_view(final(state).error_message) == Some(
            "Account name cannot be empty."@,
        ) && final(input)@ == old(input)@ && e is Redraw,
        old(state).step == AddAccountStep::AccountName && old(input)@.len() > 0 ==> final(state).step
            == AddAccountStep::Secret && final(state).account_name@ == old(input)@
            && final(state).error_message.is_none() && final(input)@.len() == 0 && e is Redraw,
        old(state).step == AddAccountStep::Secret && old(input)@.len() == 0 ==> final(state).step
            == AddAccountStep::Secret && opt_str_view(final(state).error_message) == Some(
            "Secret key cannot be empty."@,
        ) && final(input)@ == old(input)@ && e is Redraw,
        old(state).step == AddAccountStep::Secret && old(input)@.len() > 0 ==> final(state).step
            == AddAccountStep::TypeSelect && final(state).secret_b32@ == old(input)@
            && final(state).error_message.is_none() && final(input)@.len() == 0 && e is Redraw,
        old(state).step == AddAccountStep::TypeSelect ==> final(state).step == AddAccountStep::Confirm
            && final(input)@ == old(input)@ && e is Redraw,
        old(state).step == AddAccountStep::Confirm ==> final(state).step == AddAccountStep::Confirm
            && final(input)@ == old(input)@ && (e matches AddAccountEffect::PutCredential { name, secret, oath_type }
            && name@ == wizard_name(old(state).issuer@, old(state).account_name@) && secret@
            == old(state).secret_b32@ && oath_type == old(state).oath_type),
        old(state).step != AddAccountStep::Issuer ==> final(state).issuer@ == old(state).issuer@,
        old(state).step != AddAccountStep::AccountName || old(input)@.len() == 0 ==> final(state).account_name@
            == old(state).account_name@,
        old(state).step != AddAccountStep::Secret || old(input)@.len() == 0 ==> final(state).secret_b32@
            == old(state).secret_b32@,
        final(state).oath_type == old(state).oath_type,
{
    match state.step {
        AddAccountStep::Issuer => {
            let mut taken = String::new();
            std::mem::swap(&mut taken, input);
            state.issuer = taken;
            state.step = AddAccountStep::AccountName;
            AddAccountEffect::Redraw
        },
        AddAccountStep::AccountName => {
            if input.as_str().unicode_len() == 0 {
                state.error_message = Some(String::from_str("Account name cannot be empty."));
                return AddAccountEffect::Redraw;
            }
            state.error_message = None;
            let mut taken = String::new();
            std::mem::swap(&mut taken, input);
            state.account_name = taken;
            state.step = AddAccountStep::Secret;
            AddAccountEffect::Redraw
        },
        AddAccountStep::Secret => {
            if input.as_str().unicode_len() == 0 {
                state.error_message = Some(String::from_str("Secret key cannot be empty."));
                return AddAccountEffect::Redraw;
            }
            state.error_message = None;
            let mut taken = String::new();
            std::mem::swap(&mut taken, input);
            state.secret_b32 = taken;
            state.step = AddAccountStep::TypeSelect;
            AddAccountEffect::Redraw
        },
        AddAccountStep::TypeSelect => {
            state.step = AddAccountStep::Confirm;
            AddAccountEffect::Redraw
        },
        AddAccountStep::Confirm => {
            let name = if state.issuer.as_str().unicode_len() == 0 {
                state.account_name.clone()
            } else {
                let mut n = state.issuer.clone();
                n.append(":");
                n.append(state.account_name.as_str());
                n
            };
            AddAccountEffect::PutCredential {
                name,
                secret: state.secret_b32.clone(),
                oath_type: state.oath_type,
            }
        },
    }
}

/// The view of an optional string.
pub open spec fn opt_str_view(o: Option<String>) -> Option<Seq<char>> {
    match o {
        Some(s) => Some(s@),
        None => None,
    }
}

/// The message after an account was stored.
pub fn account_added_message(name: &str) -> (s: String)
    ensures
        s@ == "Account '"@ + name@ + "' added successfully."@,
{
    let mut s = String::from_str("Account '");
    s.append(name);
    s.append("' added successfully.");
    s
}

/// A secret masked for display, by its UTF-8 bytes `b`: one `●` per byte where
/// there are four or fewer, else the text of the first four bytes and one `●` per
/// further byte.
pub open spec fn masked(b: Seq<u8>) -> Seq<char> {
    if b.len() <= 4 {
        mask(b.len())
    } else {
        decode_utf8(b.subrange(0, 4)) + mask((b.len() - 4) as nat)
    }
}

/// Masks a secret for display (see [`masked`]); a secret longer than four bytes
/// must have a character boundary after its fourth byte.
pub fn mask_secret(secret: &str) -> (s: String)
    requires
        secret.spec_bytes().len() <= 4 || is_char_boundary(secret.spec_bytes(), 4),
    ensures
        s@ == masked(secret.spec_bytes()),
{
    broadcast use vstd::utf8::encode_utf8_decode_utf8;
    let n = secret.as_bytes().len();
    if n <= 4 {
        return mask_string(n);
    }
    let (head, _) = secret.split_at(4);
    let mut s = String::from_str(head);
    let m = mask_string(n - 4);
    s.append(m.as_str());
    assert(head@ == decode_utf8(head.spec_bytes()));
    s
}

/// What an OATH entry screen asks the application to do.
#[derive(Debug)]
pub enum OathEntryNav {
    /// Stay on the screen.
    Stay,
    /// Close the screen.
    Cancel,
    /// Store this credential on the key (6 digits).
    PutCredential { name: String, secret: String, oath_type: OathType, algorithm: OathAlgorithm },
    /// Close the screen and show a message.
    Done { title: String, body: String },
}

/// The add-account wizard: what it has gathered and the text being typed.
#[derive(Debug)]
pub struct AddAccountScreen {
    pub state: AddAccountState,
    pub input_buffer: String,
}

/// Whether a step takes typed text (issuer, account name, secret).
pub open spec fn text_step(step: AddAccountStep) -> bool {
    step == AddAccountStep::Issuer || step == AddAccountStep::AccountName || step == AddAccountStep::Secret
}

/// The OATH type chosen by a key on the type step: `t` for TOTP, `h` for HOTP.
pub open spec fn type_key(c: char, t: OathType) -> OathType {
    if c == 't' || c == 'T' {
        OathType::Totp
    } else if c == 'h' || c == 'H' {
        OathType::Hotp
    } else {
        t
    }
}

/// The step after enter with `input` typed (see [`advance_step`]): an empty
/// account name or secret keeps its step.
pub open spec fn next_add_step(step: AddAccountStep, input: Seq<char>) -> AddAccountStep {
    match step {
        AddAccountStep::Issuer => AddAccountStep::AccountName,
        AddAccountStep::AccountName => if input.len() == 0 {
            AddAccountStep::AccountName
        } else {
            AddAccountStep::Secret
        },
        AddAccountStep::Secret => if input.len() == 0 {
            AddAccountStep::Secret
        } else {
            AddAccountStep::TypeSelect
        },
        _ => AddAccountStep::Confirm,
    }
}

/// `n` mask characters.
pub open spec fn mask(n: nat) -> Seq<char> {
    Seq::new(n, |i: int| '●')
}

/// A string of `n` mask characters.
fn mask_string(n: usize) -> (s: String)
    ensures
        s@ == mask(n as nat),
{
    let mut s = String::new();
    let mut i: usize = 0;
    while i < n
        invariant
            i <= n,
            s@ == mask(i as nat),
        decreases n - i,
    {
        push_char(&mut s, '●');
        i = i + 1;
        assert(s@ =~= mask(i as nat));
    }
    s
}

/// The step number and name of the add-account wizard's header.
pub open spec fn add_step_header(step: AddAccountStep) -> Seq<char> {
    match step {
        AddAccountStep::Issuer => "Step 1/5: Issuer"@,
        AddAccountStep::AccountName => "Step 2/5: Account Name"@,
        AddAccountStep::Secret => "Step 3/5: Secret Key"@,
        AddAccountStep::TypeSelect => "Step 4/5: Type"@,
        AddAccountStep::Confirm => "Step 5/5: Confirm"@,
    }
}

/// The marker of a type choice: `>` on the chosen one.
pub open spec fn type_marker(chosen: bool) -> Seq<char> {
    if chosen {
        ">"@
    } else {
        " "@
    }
}

/// The add-account wizard's text: the step header, the step's prompt with the
/// typed input (masked, one mark per byte, for the secret), the type choice or
/// the review, and the error where there is one.
pub open spec fn add_account_text(s: AddAccountState, input: Seq<char>) -> Seq<Seq<char>> {
    let body = match s.step {
        AddAccountStep::Issuer => seq!["Enter issuer name (e.g., GitHub, Google):"@, "> "@ + input + "_"@],
        AddAccountStep::AccountName => seq![
            "Enter account name (e.g., user@example.com):"@,
            "> "@ + input + "_"@,
        ],
        AddAccountStep::Secret => seq!["Enter Base32 secret key:"@, "> "@ + mask(byte_len(input)) + "_"@],
        AddAccountStep::TypeSelect => seq![
            "Select type:"@,
            " "@ + type_marker(s.oath_type == OathType::Totp) + " TOTP (time-based, default)"@,
            " "@ + type_marker(s.oath_type == OathType::Hotp) + " HOTP (counter-based)"@,
            ""@,
            "Press T or H to select, Enter to confirm."@,
        ],
        AddAccountStep::Confirm => seq![
            "Review:"@,
            "  Name:   "@ + wizard_name(s.issuer@, s.account_name@),
            "  Type:   "@ + s.oath_type.label(),
            "  Secret: "@ + mask(byte_len(s.secret_b32@)),
            ""@,
            "Enter to save, Esc to cancel."@,
        ],
    };
    let err = match s.error_message {
        Some(e) => seq![""@, "Error: "@ + e@],
        None => Seq::empty(),
    };
    seq![add_step_header(s.step), ""@] + body + err
}

impl AddAccountScreen {
    /// The wizard's text for its current step.
    pub fn lines(&self) -> (v: Vec<String>)
        ensures
            string_views(v@) == add_account_text(self.state, self.input_buffer@),
    {
        let st = &self.state;
        let mut v: Vec<String> = Vec::new();
        push_line(&mut v, String::from_str(match st.step {
            AddAccountStep::Issuer => "Step 1/5: Issuer",
            AddAccountStep::AccountName => "Step 2/5: Account Name",
            AddAccountStep::Secret => "Step 3/5: Secret Key",
            AddAccountStep::TypeSelect => "Step 4/5: Type",
            AddAccountStep::Confirm => "Step 5/5: Confirm",
        }));
        push_line(&mut v, String::from_str(""));
        match st.step {
            AddAccountStep::Issuer | AddAccountStep::AccountName => {
                push_line(&mut v, String::from_str(if st.step == AddAccountStep::Issuer {
                    "Enter issuer name (e.g., GitHub, Google):"
                } else {
                    "Enter account name (e.g., user@example.com):"
                }));
                let mut l = String::from_str("> ");
                l.append(self.input_buffer.as_str());
                l.append("_");
                push_line(&mut v, l);
            },
            AddAccountStep::Secret => {
                push_line(&mut v, String::from_str("Enter Base32 secret key:"));
                let mut l = String::from_str("> ");
                let m = mask_string(self.input_buffer.as_str().as_bytes().len());
                l.append(m.as_str());
                l.append("_");
                push_line(&mut v, l);
            },
            AddAccountStep::TypeSelect => {
                push_line(&mut v, String::from_str("Select type:"));
                let mut t = String::from_str(" ");
                t.append(if st.oath_type == OathType::Totp { ">" } else { " " });
                t.append(" TOTP (time-based, default)");
                push_line(&mut v, t);
                let mut h = String::from_str(" ");
                h.append(if st.oath_type == OathType::Hotp { ">" } else { " " });
                h.append(" HOTP (counter-based)");
                push_line(&mut v, h);
                push_line(&mut v, String::from_str(""));
                push_line(&mut v, String::from_str("Press T or H to select, Enter to confirm."));
            },
            AddAccountStep::Confirm => {
                push_line(&mut v, String::from_str("Review:"));
                let mut n = String::from_str("  Name:   ");
                if st.issuer.as_str().unicode_len() == 0 {
                    n.append(st.account_name.as_str());
                } else {
                    n.append(st.issuer.as_str());
                    n.append(":");
                    n.append(st.account_name.as_str());
                }
                proof {
                    reveal_strlit(":");
                }
                assert(n@ =~= "  Name:   "@ + wizard_name(st.issuer@, st.account_name@));
                push_line(&mut v, n);
                let mut t = String::from_str("  Type:   ");
                let ts = st.oath_type.to_string();
                t.append(ts.as_str());
                push_line(&mut v, t);
                let mut sec = String::from_str("  Secret: ");
                let m = mask_string(st.secret_b32.as_str().as_bytes().len());
                sec.append(m.as_str());
                push_line(&mut v, sec);
                push_line(&mut v, String::from_str(""));
                push_line(&mut v, String::from_str("Enter to save, Esc to cancel."));
            },
        }
        if let Some(e) = &st.error_message {
            push_line(&mut v, String::from_str(""));
            let mut l = String::from_str("Error: ");
            l.append(e.as_str());
            push_line(&mut v, l);
        }
        proof {
            reveal_strlit(":");
        }
        assert(string_views(v@) =~= add_account_text(self.state, self.input_buffer@));
        v
    }
    /// The wizard at its first step with nothing typed.
    pub fn new() -> (s: Self)
        ensures
            s.state.step == AddAccountStep::Issuer,
            s.state.issuer@.len() == 0 && s.state.account_name@.len() == 0 && s.state.secret_b32@.len() == 0,
            s.state.oath_type == OathType::Totp,
            s.state.error_message is None,
            s.input_buffer@.len() == 0,
    {
        AddAccountScreen { state: AddAccountState::default(), input_buffer: String::new() }
    }

    /// A key in the wizard: escape closes it, enter runs [`advance_step`] (SHA-1
    /// for a stored credential), backspace edits the text, a character is typed on
    /// the text steps and picks the type on the type step.
    pub fn on_key(&mut self, key: PinKey) -> (nav: OathEntryNav)
        ensures
            match key {
                PinKey::Esc => nav is Cancel && final(self).state.step == old(self).state.step
                    && final(self).input_buffer@ == old(self).input_buffer@,
                PinKey::Backspace => nav is Stay && final(self).state.step == old(self).state.step
                    && final(self).input_buffer@ == edited(old(self).input_buffer@, key),
                PinKey::Char(c) => nav is Stay && final(self).state.step == old(self).state.step && if old(
                    self,
                ).state.step == AddAccountStep::TypeSelect {
                    final(self).state.oath_type == type_key(c, old(self).state.oath_type)
                        && final(self).input_buffer@ == old(self).input_buffer@
                } else if text_step(old(self).state.step) {
                    final(self).input_buffer@ == old(self).input_buffer@.push(c)
                        && final(self).state.oath_type == old(self).state.oath_type
                } else {
                    final(self).input_buffer@ == old(self).input_buffer@
                        && final(self).state.oath_type == old(self).state.oath_type
                },
                PinKey::Enter => if old(self).state.step == AddAccountStep::Confirm {
                    &&& nav matches OathEntryNav::PutCredential { name, secret, oath_type, algorithm }
                    &&& name@ == wizard_name(old(self).state.issuer@, old(self).state.account_name@)
                    &&& secret@ == old(self).state.secret_b32@
                    &&& oath_type == old(self).state.oath_type
                    &&& algorithm == OathAlgorithm::Sha1
                } else {
                    &&& nav is Stay
                    &&& final(self).state.step == next_add_step(old(self).state.step, old(self).input_buffer@)
                    &&& final(self).input_buffer@ == if final(self).state.step == old(self).state.step
                        || old(self).state.step == AddAccountStep::TypeSelect {
                        old(self).input_buffer@
                    } else {
                        Seq::empty()
                    }
                },
                _ => nav is Stay && final(self).state.step == old(self).state.step
                    && final(self).input_buffer@ == old(self).input_buffer@,
            },
    {
        match key {
            PinKey::Esc => OathEntryNav::Cancel,
            PinKey::Backspace => {
                edit(&mut self.input_buffer, key);
                OathEntryNav::Stay
            },
            PinKey::Enter => {
                match advance_step(&mut self.state, &mut self.input_buffer) {
                    AddAccountEffect::Redraw => OathEntryNav::Stay,
                    AddAccountEffect::PutCredential { name, secret, oath_type } => {
                        OathEntryNav::PutCredential { name, secret, oath_type, algorithm: OathAlgorithm::Sha1 }
                    },
                }
            },
            PinKey::Char(c) => {
                match self.state.step {
                    AddAccountStep::TypeSelect => {
                        if c == 't' || c == 'T' {
                            self.state.oath_type = OathType::Totp;
                        } else if c == 'h' || c == 'H' {
                            self.state.oath_type = OathType::Hotp;
                        }
                    },
                    AddAccountStep::Issuer | AddAccountStep::AccountName | AddAccountStep::Secret => {
                        push_char(&mut self.input_buffer, c);
                    },
                    AddAccountStep::Confirm => {},
                }
                OathEntryNav::Stay
            },
            _ => OathEntryNav::Stay,
        }
    }

    /// The key's answer to storing the credential named `name`: done, or its error shown.
    pub fn on_put_result(&mut self, name: &str, result: Result<(), String>) -> (nav: OathEntryNav)
        ensures
            match result {
                Ok(_) => nav matches OathEntryNav::Done { title, body } && title@ == "Success"@
                    && body@ == "Account '"@ + name@ + "' added successfully."@,
                Err(e) => nav is Stay && (final(self).state.error_message matches Some(m) && m@ == e@),
            },
    {
        match result {
            Ok(_) => OathEntryNav::Done { title: String::from_str("Success"), body: account_added_message(name) },
            Err(e) => {
                self.state.error_message = Some(e);
                OathEntryNav::Stay
            },
        }
    }
}

/// The two steps of importing a URI: pasting it, then confirming what it holds.
#[derive(Debug)]
pub enum ImportUriStep {
    Paste,
    Confirm(ParsedOtpAuth),
}

/// The screen that imports an `otpauth://` URI.
#[derive(Debug)]
pub struct ImportUriScreen {
    pub input: String,
    pub step: ImportUriStep,
    pub error: Option<String>,
}

impl ImportUriScreen {
    /// An empty paste step.
    pub fn new() -> (s: Self)
        ensures
            s.input@.len() == 0,
            s.step is Paste,
            s.error is None,
    {
        ImportUriScreen { input: String::new(), step: ImportUriStep::Paste, error: None }
    }

    /// Reads the trimmed input as a URI: its credential is shown for confirmation,
    /// or the reason it was refused.
    pub fn parse_and_preview(&mut self)
        ensures
            final(self).input@ == old(self).input@,
            match otpauth_of(trim(old(self).input@)) {
                Ok(p) => final(self).step matches ImportUriStep::Confirm(q) && q@ == p
                    && final(self).error is None,
                Err(e) => (final(self).error matches Some(m) && m@ == e)
                    && final(self).step == old(self).step,
            },
    {
        let cs = chars_of(self.input.as_str());
        let t = string_from_chars(&trim_chars(&cs));
        match parse_otpauth_uri(t.as_str()) {
            Err(e) => {
                self.error = Some(e);
            },
            Ok(p) => {
                self.error = None;
                self.step = ImportUriStep::Confirm(p);
            },
        }
    }

    /// A key on the screen: on the paste step, escape closes, enter previews and
    /// other keys edit the URI; on the confirmation step, escape goes back to the
    /// paste step and enter asks to store the credential (6 digits).
    pub fn on_key(&mut self, key: PinKey) -> (nav: OathEntryNav)
        ensures
            match old(self).step {
                ImportUriStep::Paste => match key {
                    PinKey::Esc => nav is Cancel && final(self).step is Paste,
                    PinKey::Enter => nav is Stay && final(self).input@ == old(self).input@,
                    _ => nav is Stay && final(self).step is Paste
                        && final(self).input@ == edited(old(self).input@, key),
                },
                ImportUriStep::Confirm(p) => final(self).input@ == old(self).input@ && match key {
                    PinKey::Esc => nav is Stay && final(self).step is Paste,
                    PinKey::Enter => {
                        &&& nav matches OathEntryNav::PutCredential { name, secret, oath_type, algorithm }
                        &&& name@ == p.name@ && secret@ == p.secret@
                        &&& oath_type == p.oath_type && algorithm == p.algorithm
                        &&& final(self).step == old(self).step
                    },
                    _ => nav is Stay && final(self).step == old(self).step,
                },
            },
    {
        let confirming = match &self.step {
            ImportUriStep::Paste => false,
            ImportUriStep::Confirm(_) => true,
        };
        if !confirming {
            match key {
                PinKey::Esc => OathEntryNav::Cancel,
                PinKey::Enter => {
                    self.parse_and_preview();
                    OathEntryNav::Stay
                },
                _ => {
                    edit(&mut self.input, key);
                    OathEntryNav::Stay
                },
            }
        } else {
            match key {
                PinKey::Esc => {
                    self.step = ImportUriStep::Paste;
                    OathEntryNav::Stay
                },
                PinKey::Enter => match &self.step {
                    ImportUriStep::Confirm(p) => OathEntryNav::PutCredential {
                        name: p.name.clone(),
                        secret: p.secret.clone(),
                        oath_type: p.oath_type,
                        algorithm: p.algorithm,
                    },
                    ImportUriStep::Paste => OathEntryNav::Stay,
                },
                _ => OathEntryNav::Stay,
            }
        }
    }

    /// The key's answer to storing the credential named `name`: done, or back to
    /// the paste step with "Add failed: " and the error.
    pub fn on_put_result(&mut self, name: &str, result: Result<(), String>) -> (nav: OathEntryNav)
        ensures
            match result {
                Ok(_) => nav matches OathEntryNav::Done { title, body } && title@ == "Imported"@
                    && body@ == "Account '"@ + name@ + "' added."@,
                Err(e) => nav is Stay && final(self).step is Paste
                    && (final(self).error matches Some(m) && m@ == "Add failed: "@ + e@),
            },
    {
        match result {
            Ok(_) => {
                let mut body = String::from_str("Account '");
                body.append(name);
                body.append("' added.");
                OathEntryNav::Done { title: String::from_str("Imported"), body }
            },
            Err(e) => {
                let mut m = String::from_str("Add failed: ");
                m.append(e.as_str());
                self.step = ImportUriStep::Paste;
                self.error = Some(m);
                OathEntryNav::Stay
            },
        }
    }
}

/// The question before an OATH credential is deleted.
pub open spec fn delete_credential_body(display_name: Seq<char>) -> Seq<char> {
    "Permanently delete '"@ + display_name
        + "'?\n\nThis cannot be undone. The credential will be removed from the YubiKey."@
}

/// The confirmation before one OATH credential is deleted.
#[derive(Debug)]
pub struct DeleteConfirmScreen {
    pub credential_name: String,
    pub display_name: String,
    /// The question shown under the "Delete Credential" title.
    pub body: String,
}

impl DeleteConfirmScreen {
    /// The confirmation for the credential stored as `credential_name`.
    pub fn new(credential_name: String, display_name: String) -> (s: Self)
        ensures
            s.credential_name@ == credential_name@,
            s.display_name@ == display_name@,
            s.body@ == delete_credential_body(display_name@),
    {
        let mut body = String::from_str("Permanently delete '");
        body.append(display_name.as_str());
        body.append("'?\n\nThis cannot be undone. The credential will be removed from the YubiKey.");
        DeleteConfirmScreen { credential_name, display_name, body }
    }

    /// The message that replaces the confirmation once the deletion has run.
    pub fn outcome(&self, result: Result<(), String>) -> (nav: OathEntryNav)
        ensures
            match result {
                Ok(_) => nav matches OathEntryNav::Done { title, body } && title@ == "Success"@
                    && body@ == "'"@ + self.display_name@ + "' deleted from YubiKey."@,
                Err(e) => nav matches OathEntryNav::Done { title, body } && title@ == "Error"@
                    && body@ == "Delete failed: "@ + e@,
            },
    {
        match result {
            Ok(_) => {
                let mut body = String::from_str("'");
                body.append(self.display_name.as_str());
                body.append("' deleted from YubiKey.");
                OathEntryNav::Done { title: String::from_str("Success"), body }
            },
            Err(e) => {
                let mut body = String::from_str("Delete failed: ");
                body.append(e.as_str());
                OathEntryNav::Done { title: String::from_str("Error"), body }
            },
        }
    }
}

/// The key bindings of the OATH list.
#[derive(Debug, Clone, Copy, PartialEq, Eq, Structural)]
pub enum OathAction {
    Back,
    Up,
    Down,
    GenerateHotp,
    AddAccount,
    ImportUri,
    PasswordMgmt,
    DeleteAccount,
    Refresh,
    Help,
}

/// Where the OATH list sends the user.
#[derive(Debug)]
pub enum OathScreenNav {
    Stay,
    Back,
    AddAccount,
    ImportUri,
    /// The applet is locked: ask for its password.
    Unlock,
    /// Set, change or remove the password.
    PasswordMenu,
    ConfirmDelete(DeleteConfirmScreen),
    /// Read the credentials from the card again.
    Refresh,
    Help,
}

/// The number of credentials listed (none without an OATH state).
pub open spec fn listed_count(o: Option<OathState>) -> int {
    match o {
        Some(s) => s.credentials@.len() as int,
        None => 0,
    }
}

/// The cursor after an action: up stops at the first credential, down at the last.
pub open spec fn cursor_after(sel: int, count: int, action: OathAction) -> int {
    match action {
        OathAction::Up => if sel > 0 {
            sel - 1
        } else {
            sel
        },
        OathAction::Down => if sel + 1 < count {
            sel + 1
        } else {
            sel
        },
        _ => sel,
    }
}

/// The cursor never leaves the list: from a listed credential every action lands
/// on a listed credential.
pub proof fn lemma_cursor_stays_in_list(sel: int, count: int, action: OathAction)
    requires
        0 <= sel < count,
    ensures
        0 <= cursor_after(sel, count, action) < count,
{
}

/// The OATH credential list.
#[derive(Debug)]
pub struct OathScreen {
    pub oath_state: Option<OathState>,
    pub key_present: bool,
    pub loading: bool,
    pub state: OathTuiState,
}

impl OathScreen {
    /// The list for a state, without a key known to be present.
    pub fn new(oath_state: Option<OathState>) -> (s: Self)
        ensures
            s.oath_state == oath_state,
            !s.key_present && !s.loading,
            s.state == (OathTuiState { selected_index: 0, scroll_offset: 0 }),
    {
        OathScreen { oath_state, key_present: false, loading: false, state: OathTuiState::default() }
    }

    /// The list for a state, with a key present.
    pub fn new_with_key(oath_state: Option<OathState>) -> (s: Self)
        ensures
            s.oath_state == oath_state,
            s.key_present && !s.loading,
            s.state == (OathTuiState { selected_index: 0, scroll_offset: 0 }),
    {
        OathScreen { oath_state, key_present: true, loading: false, state: OathTuiState::default() }
    }

    /// The credentials read in the background have arrived (`None` where the read
    /// failed, which leaves the list as it was).
    pub fn on_loaded(&mut self, result: Option<OathState>)
        ensures
            !final(self).loading,
            final(self).state == old(self).state,
            final(self).oath_state == (match result {
                Some(st) => Some(st),
                None => old(self).oath_state,
            }),
    {
        self.loading = false;
        match result {
            Some(st) => {
                self.oath_state = Some(st);
            },
            None => {},
        }
    }

    /// An action on the list: the cursor moves within the credentials; the
    /// password action asks to unlock a locked applet, else opens the password
    /// menu; delete asks to confirm for the selected credential (shown by its
    /// issuer where it has one).
    pub fn on_action(&mut self, action: OathAction) -> (nav: OathScreenNav)
        ensures
            final(self).oath_state == old(self).oath_state,
            final(self).state.scroll_offset == old(self).state.scroll_offset,
            final(self).state.selected_index == cursor_after(
                old(self).state.selected_index as int,
                listed_count(old(self).oath_state),
                action,
            ),
            match action {
                OathAction::Back => nav is Back,
                OathAction::AddAccount => nav is AddAccount,
                OathAction::ImportUri => nav is ImportUri,
                OathAction::Refresh => nav is Refresh,
                OathAction::Help => nav is Help,
                OathAction::PasswordMgmt => if (old(self).oath_state matches Some(st) && st.password_required) {
                    nav is Unlock
                } else {
                    nav is PasswordMenu
                },
                OathAction::DeleteAccount => if old(self).state.selected_index < listed_count(old(self).oath_state) {
                    let c = old(self).oath_state.unwrap().credentials@[old(self).state.selected_index as int];
                    nav matches OathScreenNav::ConfirmDelete(d) && d.credential_name@ == c.name@
                        && d.display_name@ == (match c.issuer {
                        Some(i) => i@,
                        None => c.name@,
                    }) && d.body@ == delete_credential_body(d.display_name@)
                } else {
                    nav is Stay
                },
                _ => nav is Stay,
            },
    {
        match action {
            OathAction::Back => OathScreenNav::Back,
            OathAction::Up => {
                if self.state.selected_index > 0 {
                    self.state.selected_index = self.state.selected_index - 1;
                }
                OathScreenNav::Stay
            },
            OathAction::Down => {
                let count: usize = match &self.oath_state {
                    Some(st) => st.credentials.len(),
                    None => 0,
                };
                if count > 0 && self.state.selected_index < count - 1 {
                    self.state.selected_index = self.state.selected_index + 1;
                }
                OathScreenNav::Stay
            },
            OathAction::GenerateHotp => OathScreenNav::Stay,
            OathAction::AddAccount => OathScreenNav::AddAccount,
            OathAction::ImportUri => OathScreenNav::ImportUri,
            OathAction::PasswordMgmt => {
                let locked = match &self.oath_state {
                    Some(st) => st.password_required,
                    None => false,
                };
                if locked {
                    OathScreenNav::Unlock
                } else {
                    OathScreenNav::PasswordMenu
                }
            },
            OathAction::DeleteAccount => {
                let i = self.state.selected_index;
                match &self.oath_state {
                    Some(st) => {
                        if i < st.credentials.len() {
                            let c = &st.credentials[i];
                            let display = match &c.issuer {
                                Some(iss) => iss.clone(),
                                None => c.name.clone(),
                            };
                            OathScreenNav::ConfirmDelete(DeleteConfirmScreen::new(c.name.clone(), display))
                        } else {
                            OathScreenNav::Stay
                        }
                    },
                    None => OathScreenNav::Stay,
                }
            },
            OathAction::Refresh => OathScreenNav::Refresh,
            OathAction::Help => OathScreenNav::Help,
        }
    }
}

/// Which panel the OATH screen shows.
#[derive(Debug, Clone, Copy, PartialEq, Eq, Structural)]
pub enum OathPanel {
    /// The credentials are being read.
    Loading,
    /// A key is present but nothing was read yet.
    NotLoaded,
    /// No key.
    NoKey,
    /// The applet is locked by a password.
    PasswordRequired,
    /// The applet holds no credential.
    NoAccounts,
    /// The credential table.
    List,
}

impl OathScreen {
    /// The panel for the screen's state.
    pub fn panel(&self) -> (p: OathPanel)
        ensures
            p == (match self.oath_state {
                None => if self.loading {
                    OathPanel::Loading
                } else if self.key_present {
                    OathPanel::NotLoaded
                } else {
                    OathPanel::NoKey
                },
                Some(st) => if st.password_required {
                    OathPanel::PasswordRequired
                } else if st.credentials@.len() == 0 {
                    OathPanel::NoAccounts
                } else {
                    OathPanel::List
                },
            }),
    {
        match &self.oath_state {
            None => if self.loading {
                OathPanel::Loading
            } else if self.key_present {
                OathPanel::NotLoaded
            } else {
                OathPanel::NoKey
            },
            Some(st) => if st.password_required {
                OathPanel::PasswordRequired
            } else if st.credentials.len() == 0 {
                OathPanel::NoAccounts
            } else {
                OathPanel::List
            },
        }
    }
}

/// The message of a panel (Markdown); the credential table has none.
pub open spec fn panel_message(p: OathPanel) -> Seq<char> {
    match p {
        OathPanel::Loading => "Loading OATH credentials..."@,
        OathPanel::NotLoaded => "## OATH Credentials Not Loaded\n\nPress **R** to load credentials from your YubiKey."@,
        OathPanel::NoKey => "## No YubiKey Detected\n\nInsert your YubiKey and press **R** to refresh."@,
        OathPanel::PasswordRequired => "## Password Required\n\nThis YubiKey's OATH applet is protected by a password.\n\nPress **P** to enter the password and unlock your credentials."@,
        OathPanel::NoAccounts => "## No Accounts Stored\n\nYour YubiKey has no OATH credentials yet.\n\nAdd an account to store TOTP or HOTP codes securely on hardware."@,
        OathPanel::List => Seq::empty(),
    }
}

/// The buttons of a panel: label and action.
pub open spec fn panel_buttons(p: OathPanel) -> Seq<(Seq<char>, OathAction)> {
    match p {
        OathPanel::PasswordRequired => seq![("Unlock with Password"@, OathAction::PasswordMgmt)],
        OathPanel::NoAccounts => seq![("Add Account"@, OathAction::AddAccount)],
        OathPanel::List => seq![
            ("Add Account"@, OathAction::AddAccount),
            ("Delete Account"@, OathAction::DeleteAccount),
            ("Refresh"@, OathAction::Refresh),
        ],
        _ => seq![("Refresh"@, OathAction::Refresh)],
    }
}

/// The views of labelled buttons.
pub open spec fn button_views(v: Seq<(String, OathAction)>) -> Seq<(Seq<char>, OathAction)> {
    v.map_values(|b: (String, OathAction)| (b.0@, b.1))
}

fn push_button(v: &mut Vec<(String, OathAction)>, label: &str, a: OathAction)
    ensures
        button_views(final(v)@) == button_views(old(v)@).push((label@, a)),
{
    v.push((String::from_str(label), a));
    assert(button_views(v@) =~= button_views(old(v)@).push((label@, a)));
}

impl OathPanel {
    /// The panel's message (see [`panel_message`]).
    pub fn message(&self) -> (s: String)
        ensures
            s@ == panel_message(*self),
    {
        match self {
            OathPanel::Loading => String::from_str("Loading OATH credentials..."),
            OathPanel::NotLoaded => String::from_str("## OATH Credentials Not Loaded\n\nPress **R** to load credentials from your YubiKey."),
            OathPanel::NoKey => String::from_str("## No YubiKey Detected\n\nInsert your YubiKey and press **R** to refresh."),
            OathPanel::PasswordRequired => String::from_str("## Password Required\n\nThis YubiKey's OATH applet is protected by a password.\n\nPress **P** to enter the password and unlock your credentials."),
            OathPanel::NoAccounts => String::from_str("## No Accounts Stored\n\nYour YubiKey has no OATH credentials yet.\n\nAdd an account to store TOTP or HOTP codes securely on hardware."),
            OathPanel::List => String::new(),
        }
    }

    /// The panel's buttons (see [`panel_buttons`]).
    pub fn buttons(&self) -> (v: Vec<(String, OathAction)>)
        ensures
            button_views(v@) == panel_buttons(*self),
    {
        let mut v: Vec<(String, OathAction)> = Vec::new();
        match self {
            OathPanel::PasswordRequired => push_button(&mut v, "Unlock with Password", OathAction::PasswordMgmt),
            OathPanel::NoAccounts => push_button(&mut v, "Add Account", OathAction::AddAccount),
            OathPanel::List => {
                push_button(&mut v, "Add Account", OathAction::AddAccount);
                push_button(&mut v, "Delete Account", OathAction::DeleteAccount);
                push_button(&mut v, "Refresh", OathAction::Refresh);
            },
            _ => push_button(&mut v, "Refresh", OathAction::Refresh),
        }
        assert(button_views(v@) =~= panel_buttons(*self));
        v
    }
}

/// The name a credential is listed under: its issuer, else its name.
pub open spec fn listed_name(c: OathCredentialView) -> Seq<char> {
    match c.issuer {
        Some(i) => i,
        None => c.name,
    }
}

/// A listed name cut to its first 30 bytes where it is longer.
pub open spec fn name_cell(d: Seq<char>) -> Seq<char> {
    if encode_utf8(d).len() > 30 {
        decode_utf8(encode_utf8(d).subrange(0, 30))
    } else {
        d
    }
}

/// The cut at 30 bytes falls between characters (else the table cannot be drawn).
pub open spec fn name_cell_ok(d: Seq<char>) -> bool {
    encode_utf8(d).len() > 30 ==> is_char_boundary(encode_utf8(d), 30)
}

/// The code column: the code, else `[Enter]` for HOTP and dashes for TOTP.
pub open spec fn code_cell(c: OathCredentialView) -> Seq<char> {
    match c.code {
        Some(x) => x,
        None => match c.oath_type {
            OathType::Hotp => "[Enter]"@,
            OathType::Totp => "------"@,
        },
    }
}

/// A row of the credential table: cursor, name, code, type.
pub open spec fn oath_row(c: OathCredentialView, selected: bool) -> (Seq<char>, Seq<char>, Seq<char>, Seq<char>) {
    (
        if selected { ">"@ } else { " "@ },
        name_cell(listed_name(c)),
        code_cell(c),
        match c.oath_type {
            OathType::Totp => "TOTP"@,
            OathType::Hotp => "HOTP"@,
        },
    )
}

/// The views of the table's rows.
pub open spec fn oath_row_views(rows: Seq<(String, String, String, String)>) -> Seq<
    (Seq<char>, Seq<char>, Seq<char>, Seq<char>),
> {
    rows.map_values(|r: (String, String, String, String)| (r.0@, r.1@, r.2@, r.3@))
}

fn name_cell_of(d: &str) -> (r: String)
    requires
        name_cell_ok(d@),
    ensures
        r@ == name_cell(d@),
{
    if d.as_bytes().len() > 30 {
        let (a, _) = d.split_at(30);
        proof {
            broadcast use vstd::utf8::encode_utf8_decode_utf8;
            assert(decode_utf8(encode_utf8(a@)) == a@);
        }
        String::from_str(a)
    } else {
        String::from_str(d)
    }
}

fn oath_row_of(c: &OathCredential, selected: bool) -> (r: (String, String, String, String))
    requires
        name_cell_ok(listed_name(c@)),
    ensures
        (r.0@, r.1@, r.2@, r.3@) == oath_row(c@, selected),
{
    let cursor = String::from_str(if selected { ">" } else { " " });
    let name = match &c.issuer {
        Some(i) => name_cell_of(i.as_str()),
        None => name_cell_of(c.name.as_str()),
    };
    let code = match &c.code {
        Some(x) => x.clone(),
        None => match c.oath_type {
            OathType::Hotp => String::from_str("[Enter]"),
            OathType::Totp => String::from_str("------"),
        },
    };
    let kind = match c.oath_type {
        OathType::Totp => String::from_str("TOTP"),
        OathType::Hotp => String::from_str("HOTP"),
    };
    (cursor, name, code, kind)
}

/// The credential table, the row at `selected` marked.
pub fn oath_rows(creds: &Vec<OathCredential>, selected: usize) -> (rows: Vec<(String, String, String, String)>)
    requires
        forall|i: int| 0 <= i < creds@.len() ==> name_cell_ok(listed_name(#[trigger] cred_views(creds@)[i])),
    ensures
        oath_row_views(rows@) == Seq::new(
            creds@.len(),
            |i: int| oath_row(cred_views(creds@)[i], i == selected),
        ),
{
    let mut rows: Vec<(String, String, String, String)> = Vec::new();
    let mut i: usize = 0;
    while i < creds.len()
        invariant
            i <= creds@.len(),
            forall|k: int| 0 <= k < creds@.len() ==> name_cell_ok(listed_name(#[trigger] cred_views(creds@)[k])),
            rows@.len() == i,
            oath_row_views(rows@) == Seq::new(i as nat, |k: int| oath_row(cred_views(creds@)[k], k == selected)),
        decreases creds@.len() - i,
    {
        assert(cred_views(creds@)[i as int] == creds@[i as int]@);
        let r = oath_row_of(&creds[i], i == selected);
        let ghost before = rows@;
        rows.push(r);
        assert(rows@ == before.push(r));
        assert(oath_row_views(rows@)[i as int] == (r.0@, r.1@, r.2@, r.3@));
        assert forall|k: int| 0 <= k < i implies #[trigger] oath_row_views(rows@)[k] == oath_row_views(before)[k] by {
            assert(rows@[k] == before[k]);
        }
        i = i + 1;
        assert(oath_row_views(rows@) =~= Seq::new(i as nat, |k: int| oath_row(cred_views(creds@)[k], k == selected)));
    }
    rows
}

/// Rust's remainder of `a` by 30 (truncated toward zero, so negative for negative `a`).
pub open spec fn rem30(a: int) -> int {
    if a >= 0 {
        a % 30
    } else {
        -((-a) % 30)
    }
}

/// Seconds until the next 30-second TOTP window at `now_secs` seconds since 1970:
/// `30 - now_secs % 30`.
pub fn totp_seconds_remaining(now_secs: i64) -> (s: i64)
    ensures
        s == 30 - rem30(now_secs as int),
        1 <= s <= 59,
{
    let r: i64 = if now_secs >= 0 {
        now_secs % 30
    } else {
        let a: i128 = 0 - (now_secs as i128);
        let m: i128 = a % 30;
        0 - (m as i64)
    };
    30 - r
}

/// The countdown shown under the TOTP codes now (see [`totp_seconds_remaining`]):
/// whatever the clock reads, between 1 and 59 seconds.
pub fn totp_seconds_remaining_now() -> (s: i64)
    ensures
        1 <= s <= 59,
{
    totp_seconds_remaining(unix_now_secs())
}

/// The countdown line: `TOTP refreshes in {secs}s`.
pub fn totp_refresh_text(secs: i64) -> (s: String)
    requires
        secs >= 0,
    ensures
        s@ == "TOTP refreshes in "@ + decimal(secs as nat) + "s"@,
{
    let mut s = String::from_str("TOTP refreshes in ");
    push_decimal(&mut s, secs as u64);
    s.append("s");
    s
}

} // verus!
