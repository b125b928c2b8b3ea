//! OpenPGP touch policies: their encodings, `ykman` output parsing, and the
//! KDF-DO handling that VERIFY needs when the card hashes PINs.
use vstd::prelude::*;
use vstd::string::*;
use crate::model::oath::{be_u32, push_bytes, sub_bytes};
use crate::model::card::{apdu_sw, status_word, verify_admin_pin_apdu, verify_admin_pin_apdu_spec};
use vstd::arithmetic::div_mod::{lemma_add_mod_noop, lemma_mod_add_multiples_vanish, lemma_small_mod};
use crate::text::{
    chars_of, decimal, find_char, is_literal, push_chars, push_decimal, first_index, lines, lines_of, split_once, split_once_chars,
    starts_with, starts_with_chars, case_lower, string_from_chars, to_lowercase_chars, trim,
    trim_chars, views, ascii_lowered, is_ws, lemma_ascii_lowered, lemma_trim_ends, lemma_trim_of_trimmed,
};
use vstd::utf8::is_ascii_chars;

verus! {

/// A touch policy of an OpenPGP slot.
#[derive(Debug, PartialEq, Eq)]
pub enum TouchPolicy {
    Off,
    On,
    Fixed,
    Cached,
    CachedFixed,
    Unknown(String),
}

/// The mathematical value of a [`TouchPolicy`].
pub enum PolicyView {
    Off,
    On,
    Fixed,
    Cached,
    CachedFixed,
    Unknown(Seq<char>),
}

impl View for TouchPolicy {
    type V = PolicyView;

    open spec fn view(&self) -> PolicyView {
        match self {
            TouchPolicy::Off => PolicyView::Off,
            TouchPolicy::On => PolicyView::On,
            TouchPolicy::Fixed => PolicyView::Fixed,
            TouchPolicy::Cached => PolicyView::Cached,
            TouchPolicy::CachedFixed => PolicyView::CachedFixed,
            TouchPolicy::Unknown(s) => PolicyView::Unknown(s@),
        }
    }
}

/// The policy that `ykman` text names: the text is trimmed and lower-cased
/// (`str::to_lowercase`); anything but the five names is kept as unknown.
pub open spec fn policy_of_text(s: Seq<char>) -> PolicyView {
    policy_of_word(case_lower(trim(s)))
}

/// The policy a lower-cased, trimmed word names.
pub open spec fn policy_of_word(l: Seq<char>) -> PolicyView {
    if l == "off"@ {
        PolicyView::Off
    } else if l == "on"@ {
        PolicyView::On
    } else if l == "fixed"@ {
        PolicyView::Fixed
    } else if l == "cached"@ {
        PolicyView::Cached
    } else if l == "cached-fixed"@ {
        PolicyView::CachedFixed
    } else {
        PolicyView::Unknown(l)
    }
}

/// The upper-case hex digit of `d` (0..=15).
pub open spec fn hex_digit_upper(d: int) -> char {
    if d < 10 {
        (d + 48) as char
    } else {
        (d + 55) as char
    }
}

/// `0x` and two upper-case hex digits (`format!("0x{:02X}", b)`).
pub open spec fn hex_byte_text(b: u8) -> Seq<char> {
    seq!['0', 'x', hex_digit_upper(b as int / 16), hex_digit_upper(b as int % 16)]
}

/// The policy a UIF byte encodes.
pub open spec fn policy_of_byte(b: u8) -> PolicyView {
    if b == 0 {
        PolicyView::Off
    } else if b == 1 {
        PolicyView::On
    } else if b == 2 {
        PolicyView::Fixed
    } else if b == 3 {
        PolicyView::Cached
    } else if b == 4 {
        PolicyView::CachedFixed
    } else {
        PolicyView::Unknown(hex_byte_text(b))
    }
}

/// The UIF byte of a policy (an unknown one is written as off).
pub open spec fn byte_of_policy(p: PolicyView) -> u8 {
    match p {
        PolicyView::Off => 0,
        PolicyView::On => 1,
        PolicyView::Fixed => 2,
        PolicyView::Cached => 3,
        PolicyView::CachedFixed => 4,
        PolicyView::Unknown(_) => 0,
    }
}

/// The `ykman` argument of a policy.
pub open spec fn ykman_arg(p: PolicyView) -> Seq<char> {
    match p {
        PolicyView::Off => "off"@,
        PolicyView::On => "on"@,
        PolicyView::Fixed => "fixed"@,
        PolicyView::Cached => "cached"@,
        PolicyView::CachedFixed => "cached-fixed"@,
        PolicyView::Unknown(s) => s,
    }
}

/// The display text of a policy.
pub open spec fn policy_label(p: PolicyView) -> Seq<char> {
    match p {
        PolicyView::Off => "Off"@,
        PolicyView::On => "On"@,
        PolicyView::Fixed => "Fixed (IRREVERSIBLE)"@,
        PolicyView::Cached => "Cached"@,
        PolicyView::CachedFixed => "Cached-Fixed (IRREVERSIBLE)"@,
        PolicyView::Unknown(s) => "Unknown("@ + s + ")"@,
    }
}

fn hex_digit_upper_exec(d: u8) -> (c: char)
    requires
        d < 16,
    ensures
        c == hex_digit_upper(d as int),
{
    if d < 10 {
        (d + 48) as char
    } else {
        (d + 55) as char
    }
}

impl TouchPolicy {
    /// The policy that `ykman` text names (see [`policy_of_text`]).
    pub fn from_str(s: &str) -> (p: Self)
        ensures
            p@ == policy_of_text(s@),
    {
        let all = chars_of(s);
        Self::from_chars(&all)
    }

    /// [`TouchPolicy::from_str`] on characters.
    fn from_chars(all: &[char]) -> (p: Self)
        ensures
            p@ == policy_of_text(all@),
    {
        let t = trim_chars(all);
        let l = to_lowercase_chars(&t);
        if is_literal(&l, "off") {
            TouchPolicy::Off
        } else if is_literal(&l, "on") {
            TouchPolicy::On
        } else if is_literal(&l, "fixed") {
            TouchPolicy::Fixed
        } else if is_literal(&l, "cached") {
            TouchPolicy::Cached
        } else if is_literal(&l, "cached-fixed") {
            TouchPolicy::CachedFixed
        } else {
            TouchPolicy::Unknown(string_from_chars(&l))
        }
    }

    /// The policy of a raw UIF data-object byte (0 off, 1 on, 2 fixed,
    /// 3 cached, 4 cached-fixed; any other byte is unknown, named `0xNN`).
    pub fn from_byte(b: u8) -> (p: Self)
        ensures
            p@ == policy_of_byte(b),
    {
        match b {
            0x00 => TouchPolicy::Off,
            0x01 => TouchPolicy::On,
            0x02 => TouchPolicy::Fixed,
            0x03 => TouchPolicy::Cached,
            0x04 => TouchPolicy::CachedFixed,
            _ => {
                let v = vec!['0', 'x', hex_digit_upper_exec(b / 16), hex_digit_upper_exec(b % 16)];
                assert(v@ =~= hex_byte_text(b));
                TouchPolicy::Unknown(string_from_chars(&v))
            },
        }
    }

    /// The raw UIF byte of the policy (an unknown policy is written as off).
    pub fn to_byte(&self) -> (b: u8)
        ensures
            b == byte_of_policy(self@),
    {
        match self {
            TouchPolicy::Off => 0x00,
            TouchPolicy::On => 0x01,
            TouchPolicy::Fixed => 0x02,
            TouchPolicy::Cached => 0x03,
            TouchPolicy::CachedFixed => 0x04,
            TouchPolicy::Unknown(_) => 0x00,
        }
    }

    /// Fixed policies cannot be changed back without a factory reset.
    pub fn is_irreversible(&self) -> (b: bool)
        ensures
            b == (self@ == PolicyView::Fixed || self@ == PolicyView::CachedFixed),
    {
        match self {
            TouchPolicy::Fixed | TouchPolicy::CachedFixed => true,
            _ => false,
        }
    }

    /// The `ykman` command-line argument of the policy.
    pub fn as_ykman_arg(&self) -> (s: &str)
        ensures
            s@ == ykman_arg(self@),
    {
        match self {
            TouchPolicy::Off => "off",
            TouchPolicy::On => "on",
            TouchPolicy::Fixed => "fixed",
            TouchPolicy::Cached => "cached",
            TouchPolicy::CachedFixed => "cached-fixed",
            TouchPolicy::Unknown(s) => s.as_str(),
        }
    }

    /// Display text of the policy.
    pub fn to_string(&self) -> (s: String)
        ensures
            s@ == policy_label(self@),
    {
        match self {
            TouchPolicy::Off => String::from_str("Off"),
            TouchPolicy::On => String::from_str("On"),
            TouchPolicy::Fixed => String::from_str("Fixed (IRREVERSIBLE)"),
            TouchPolicy::Cached => String::from_str("Cached"),
            TouchPolicy::CachedFixed => String::from_str("Cached-Fixed (IRREVERSIBLE)"),
            TouchPolicy::Unknown(u) => {
                let mut s = String::from_str("Unknown(");
                s.append(u.as_str());
                s.append(")");
                s
            },
        }
    }

    /// The policy with the same value.
    pub fn copy(&self) -> (p: Self)
        ensures
            p@ == self@,
    {
        match self {
            TouchPolicy::Off => TouchPolicy::Off,
            TouchPolicy::On => TouchPolicy::On,
            TouchPolicy::Fixed => TouchPolicy::Fixed,
            TouchPolicy::Cached => TouchPolicy::Cached,
            TouchPolicy::CachedFixed => TouchPolicy::CachedFixed,
            TouchPolicy::Unknown(s) => TouchPolicy::Unknown(s.clone()),
        }
    }
}

impl Default for TouchPolicy {
    fn default() -> (p: Self)
        ensures
            p@ == PolicyView::Off,
    {
        TouchPolicy::Off
    }
}

/// The touch policies of the four OpenPGP slots.
#[derive(Debug, PartialEq, Eq)]
pub struct TouchPolicies {
    pub signature: TouchPolicy,
    pub encryption: TouchPolicy,
    pub authentication: TouchPolicy,
    pub attestation: TouchPolicy,
}

/// The mathematical value of [`TouchPolicies`].
pub struct PoliciesView {
    pub signature: PolicyView,
    pub encryption: PolicyView,
    pub authentication: PolicyView,
    pub attestation: PolicyView,
}

impl View for TouchPolicies {
    type V = PoliciesView;

    open spec fn view(&self) -> PoliciesView {
        PoliciesView {
            signature: self.signature@,
            encryption: self.encryption@,
            authentication: self.authentication@,
            attestation: self.attestation@,
        }
    }
}

/// All four slots off.
pub open spec fn all_off() -> PoliciesView {
    PoliciesView {
        signature: PolicyView::Off,
        encryption: PolicyView::Off,
        authentication: PolicyView::Off,
        attestation: PolicyView::Off,
    }
}

impl Default for TouchPolicies {
    fn default() -> (p: Self)
        ensures
            p@ == all_off(),
    {
        TouchPolicies {
            signature: TouchPolicy::Off,
            encryption: TouchPolicy::Off,
            authentication: TouchPolicy::Off,
            attestation: TouchPolicy::Off,
        }
    }
}

/// The policy of a UIF data object read from the card: its first byte, where
/// the read succeeded and returned one; else off.
pub open spec fn uif_policy(d: Option<Seq<u8>>) -> PolicyView {
    match d {
        Some(x) => if x.len() > 0 {
            policy_of_byte(x[0])
        } else {
            PolicyView::Off
        },
        None => PolicyView::Off,
    }
}

/// The view of an optional byte slice.
pub open spec fn opt_slice(d: Option<&[u8]>) -> Option<Seq<u8>> {
    match d {
        Some(x) => Some(x@),
        None => None,
    }
}

fn uif_policy_exec(d: Option<&[u8]>) -> (p: TouchPolicy)
    ensures
        p@ == uif_policy(opt_slice(d)),
{
    match d {
        Some(x) => if x.len() > 0 {
            TouchPolicy::from_byte(x[0])
        } else {
            TouchPolicy::Off
        },
        None => TouchPolicy::Off,
    }
}

/// The touch policies from the card's UIF data objects (DO D6 signature, D7
/// encryption, D8 authentication, D9 attestation): each the data of a GET DATA
/// that succeeded, or `None` where it failed.
pub fn touch_policies_from_uif(
    sig: Option<&[u8]>,
    enc: Option<&[u8]>,
    aut: Option<&[u8]>,
    att: Option<&[u8]>,
) -> (p: TouchPolicies)
    ensures
        p@ == (PoliciesView {
            signature: uif_policy(opt_slice(sig)),
            encryption: uif_policy(opt_slice(enc)),
            authentication: uif_policy(opt_slice(aut)),
            attestation: uif_policy(opt_slice(att)),
        }),
{
    TouchPolicies {
        signature: uif_policy_exec(sig),
        encryption: uif_policy_exec(enc),
        authentication: uif_policy_exec(aut),
        attestation: uif_policy_exec(att),
    }
}

/// The state of the scan over `ykman openpgp info` output.
pub struct TouchScan {
    pub policies: PoliciesView,
    pub in_section: bool,
    pub found: bool,
    pub done: bool,
}

/// The scan before any line.
pub open spec fn scan_start() -> TouchScan {
    TouchScan { policies: all_off(), in_section: false, found: false, done: false }
}

/// The line starts with a space or a tab.
pub open spec fn indented(line: Seq<char>) -> bool {
    line.len() > 0 && (line[0] == ' ' || line[0] == '\t')
}

/// The scan with the slot named `key` set to `p` (other keys change nothing).
pub open spec fn set_slot(st: TouchScan, key: Seq<char>, p: PolicyView) -> TouchScan {
    let q = st.policies;
    if key == "Signature key"@ {
        TouchScan { policies: PoliciesView { signature: p, ..q }, found: true, ..st }
    } else if key == "Encryption key"@ {
        TouchScan { policies: PoliciesView { encryption: p, ..q }, found: true, ..st }
    } else if key == "Authentication key"@ {
        TouchScan { policies: PoliciesView { authentication: p, ..q }, found: true, ..st }
    } else if key == "Attestation key"@ {
        TouchScan { policies: PoliciesView { attestation: p, ..q }, found: true, ..st }
    } else {
        st
    }
}

/// One line of the scan: a `Touch policies:` header opens the section; inside it,
/// `key: value` lines set slots, an empty line after a slot line or an unindented
/// line without a colon ends the scan.
pub open spec fn scan_line(st: TouchScan, line: Seq<char>) -> TouchScan {
    let t = trim(line);
    if st.done {
        st
    } else if starts_with(t, "Touch policies:"@) {
        TouchScan { in_section: true, ..st }
    } else if !st.in_section {
        st
    } else if t.len() == 0 {
        TouchScan { done: st.found, ..st }
    } else if !indented(line) && first_index(t, ':') is None {
        TouchScan { done: true, ..st }
    } else {
        match split_once(t, ':') {
            Some((k, v)) => set_slot(st, trim(k), policy_of_text(trim(v))),
            None => st,
        }
    }
}

/// The scan over a sequence of lines.
pub open spec fn scan_lines(ls: Seq<Seq<char>>) -> TouchScan
    decreases ls.len(),
{
    if ls.len() == 0 {
        scan_start()
    } else {
        scan_line(scan_lines(ls.drop_last()), ls.last())
    }
}

/// The touch policies that `ykman openpgp info` output lists (all off where
/// the section or a slot line is missing).
pub open spec fn touch_policies_of(output: Seq<char>) -> PoliciesView {
    scan_lines(lines(output)).policies
}

/// Once the scan is done, later lines change nothing.
proof fn lemma_scan_done(ls: Seq<Seq<char>>, j: int)
    requires
        0 <= j <= ls.len(),
        scan_lines(ls.take(j)).done,
    ensures
        scan_lines(ls) == scan_lines(ls.take(j)),
    decreases ls.len(),
{
    if ls.len() == j {
        assert(ls.take(j) =~= ls);
    } else {
        assert(ls.drop_last().take(j) =~= ls.take(j));
        lemma_scan_done(ls.drop_last(), j);
    }
}

/// Parses the touch policies of `ykman openpgp info` output; without a
/// `Touch policies:` line every policy is off.
pub fn parse_touch_policies(output: &str) -> (p: TouchPolicies)
    ensures
        p@ == touch_policies_of(output@),
        (forall|i: int| 0 <= i < lines(output@).len() ==> !starts_with(
            trim(#[trigger] lines(output@)[i]),
            "Touch policies:"@,
        )) ==> p@ == all_off(),
{
    proof {
        if forall|i: int| 0 <= i < lines(output@).len() ==> !starts_with(
            trim(#[trigger] lines(output@)[i]),
            "Touch policies:"@,
        ) {
            lemma_no_section_all_off(output@);
        }
    }
    let all = chars_of(output);
    let ls = lines_of(&all);
    let ghost lv = views(ls@);
    let mut policies = TouchPolicies::default();
    let mut in_section = false;
    let mut found = false;
    let mut done = false;
    let header = chars_of("Touch policies:");
    let n = ls.len();
    let mut i: usize = 0;
    while i < n && !done
        invariant
            i <= n == lv.len(),
            lv == views(ls@),
            header@ == "Touch policies:"@,
            scan_lines(lv.take(i as int)) == (TouchScan {
                policies: policies@,
                in_section,
                found,
                done,
            }),
        decreases n - i,
    {
        let line = &ls[i];
        assert(lv.take(i + 1).drop_last() =~= lv.take(i as int));
        assert(lv[i as int] == line@);
        let t = trim_chars(line);
        if starts_with_chars(&t, &header) {
            in_section = true;
        } else if !in_section {
        } else if t.len() == 0 {
            done = found;
        } else if !(line.len() > 0 && (line[0] == ' ' || line[0] == '\t')) && find_char(&t, ':').is_none() {
            done = true;
        } else {
            match split_once_chars(&t, ':') {
                Some((k, v)) => {
                    let key = trim_chars(&k);
                    let val = trim_chars(&v);
                    let p = TouchPolicy::from_chars(&val);
                    if is_literal(&key, "Signature key") {
                        policies.signature = p;
                        found = true;
                    } else if is_literal(&key, "Encryption key") {
                        policies.encryption = p;
                        found = true;
                    } else if is_literal(&key, "Authentication key") {
                        policies.authentication = p;
                        found = true;
                    } else if is_literal(&key, "Attestation key") {
                        policies.attestation = p;
                        found = true;
                    }
                },
                None => {},
            }
        }
        i = i + 1;
    }
    proof {
        if done {
            lemma_scan_done(lv, i as int);
        } else {
            assert(lv.take(i as int) =~= lv);
        }
    }
    policies
}

/// The fields of an active KDF-DO (OpenPGP DO 0xF9) that PIN hashing needs.
pub struct KdfDo {
    /// Hash algorithm (0x08 is SHA-256).
    pub hash_algo: u8,
    /// Iteration count of the iterated S2K (tag 0x83, big-endian).
    pub iteration_count: u32,
    /// Salt of PW3, the Admin PIN (tag 0x86).
    pub salt_pw3: Vec<u8>,
}

/// The mathematical value of a [`KdfDo`].
pub struct KdfDoView {
    pub hash_algo: u8,
    pub iteration_count: u32,
    pub salt_pw3: Seq<u8>,
}

impl View for KdfDo {
    type V = KdfDoView;

    open spec fn view(&self) -> KdfDoView {
        KdfDoView {
            hash_algo: self.hash_algo,
            iteration_count: self.iteration_count,
            salt_pw3: self.salt_pw3@,
        }
    }
}

/// Why a KDF-DO could not be read or a PIN could not be hashed with it.
#[derive(Debug, Clone, Copy, PartialEq, Eq, Structural)]
pub enum KdfError {
    /// A long-form length runs past the data.
    LengthFieldTruncated,
    /// A value runs past the data.
    ValueTruncated { tag: u8, len: usize },
    /// Tag 0x82 is missing.
    MissingHashAlgorithm,
    /// Tag 0x83 is missing.
    MissingIterationCount,
    /// Tag 0x86 is missing.
    MissingPw3Salt,
    /// The card has no active KDF.
    NotActive,
    /// Only SHA-256 (0x08) is supported.
    UnsupportedHashAlgorithm(u8),
    /// The iteration count is above the OpenPGP maximum.
    IterationCountTooLarge(usize),
}

/// The message of a KDF error.
pub open spec fn kdf_error_text(e: KdfError) -> Seq<char> {
    match e {
        KdfError::LengthFieldTruncated => "KDF-DO TLV length field truncated"@,
        KdfError::ValueTruncated { tag, len } => "KDF-DO TLV value truncated (tag="@ + hex_byte_text(tag)
            + " len="@ + decimal(len as nat) + ")"@,
        KdfError::MissingHashAlgorithm => "KDF-DO missing hash algorithm (tag 0x82)"@,
        KdfError::MissingIterationCount => "KDF-DO missing iteration count (tag 0x83)"@,
        KdfError::MissingPw3Salt => "KDF-DO missing PW3 salt (tag 0x86)"@,
        KdfError::NotActive => "kdf_hash_pin called but KDF is not active"@,
        KdfError::UnsupportedHashAlgorithm(b) => "Unsupported KDF hash algorithm "@ + hex_byte_text(b)
            + " (only SHA-256 / 0x08 is supported)"@,
        KdfError::IterationCountTooLarge(c) => "KDF iteration count "@ + decimal(c as nat)
            + " exceeds maximum "@ + decimal(KDF_MAX_COUNT as nat),
    }
}

pub fn push_hex_byte(s: &mut String, b: u8)
    ensures
        final(s)@ == old(s)@ + hex_byte_text(b),
{
    let v = vec!['0', 'x', hex_digit_upper_exec(b / 16), hex_digit_upper_exec(b % 16)];
    assert(v@ =~= hex_byte_text(b));
    push_chars(s, &v);
}

impl KdfError {
    /// The message of the error (see [`kdf_error_text`]).
    pub fn to_string(&self) -> (s: String)
        ensures
            s@ == kdf_error_text(*self),
    {
        match self {
            KdfError::LengthFieldTruncated => String::from_str("KDF-DO TLV length field truncated"),
            KdfError::ValueTruncated { tag, len } => {
                let mut s = String::from_str("KDF-DO TLV value truncated (tag=");
                push_hex_byte(&mut s, *tag);
                s.append(" len=");
                push_decimal(&mut s, *len as u64);
                s.append(")");
                s
            },
            KdfError::MissingHashAlgorithm => String::from_str("KDF-DO missing hash algorithm (tag 0x82)"),
            KdfError::MissingIterationCount => String::from_str("KDF-DO missing iteration count (tag 0x83)"),
            KdfError::MissingPw3Salt => String::from_str("KDF-DO missing PW3 salt (tag 0x86)"),
            KdfError::NotActive => String::from_str("kdf_hash_pin called but KDF is not active"),
            KdfError::UnsupportedHashAlgorithm(b) => {
                let mut s = String::from_str("Unsupported KDF hash algorithm ");
                push_hex_byte(&mut s, *b);
                s.append(" (only SHA-256 / 0x08 is supported)");
                s
            },
            KdfError::IterationCountTooLarge(c) => {
                let mut s = String::from_str("KDF iteration count ");
                push_decimal(&mut s, *c as u64);
                s.append(" exceeds maximum ");
                push_decimal(&mut s, KDF_MAX_COUNT as u64);
                s
            },
        }
    }
}

/// The largest iteration count the OpenPGP card specification allows.
pub const KDF_MAX_COUNT: usize = 65_011_712;

/// The fields collected while walking a KDF-DO.
pub struct KdfFields {
    pub hash_algo: Option<u8>,
    pub iteration_count: Option<u32>,
    pub salt_pw3: Option<Seq<u8>>,
}

/// No field seen yet.
pub open spec fn no_fields() -> KdfFields {
    KdfFields { hash_algo: None, iteration_count: None, salt_pw3: None }
}

/// Where a walk over a KDF-DO ends.
pub enum KdfWalk {
    /// Tag 0x81 says no KDF (algorithm 0x00, or an empty value).
    Inactive,
    LengthTruncated,
    ValueTruncated(u8, int),
    /// A value's end lies beyond the machine's address range.
    Overflow,
    Fields(KdfFields),
}

/// A BER long-form length: the length octets shifted into a `usize`.
pub open spec fn long_len(octets: Seq<u8>) -> usize
    decreases octets.len(),
{
    if octets.len() == 0 {
        0
    } else {
        ((long_len(octets.drop_last()) << 8usize) | (octets.last() as usize)) as usize
    }
}

/// What a TLV item with tag `tag` and value `v` adds to the collected fields.
pub open spec fn absorb(st: KdfFields, tag: u8, v: Seq<u8>) -> KdfFields {
    if tag == 0x82 && v.len() > 0 {
        KdfFields { hash_algo: Some(v[0]), ..st }
    } else if tag == 0x83 && v.len() >= 4 {
        KdfFields { iteration_count: Some(be_u32(v) as u32), ..st }
    } else if tag == 0x86 {
        KdfFields { salt_pw3: Some(v), ..st }
    } else {
        st
    }
}

/// The walk over the TLV items of a KDF-DO from position `i`: a tag, a short
/// (below 0x80) or long (0x80 plus the number of octets) length, and a value.
/// A missing length byte ends the walk.
pub open spec fn kdf_walk(d: Seq<u8>, i: int, st: KdfFields) -> KdfWalk
    decreases d.len() - i,
{
    if i < 0 || i + 1 >= d.len() {
        KdfWalk::Fields(st)
    } else {
        let tag = d[i];
        let b = d[i + 1];
        let num = b - 128;
        if b >= 128 && i + 2 + num > d.len() {
            KdfWalk::LengthTruncated
        } else {
            let start = if b < 128 {
                i + 2
            } else {
                i + 2 + num
            };
            let len: int = if b < 128 {
                b as int
            } else {
                long_len(d.subrange(i + 2, i + 2 + num)) as int
            };
            if start + len > usize::MAX {
                KdfWalk::Overflow
            } else if start + len > d.len() {
                KdfWalk::ValueTruncated(tag, len)
            } else {
                let v = d.subrange(start, start + len);
                if tag == 0x81 && (v.len() == 0 || v[0] == 0) {
                    KdfWalk::Inactive
                } else {
                    kdf_walk(d, start + len, absorb(st, tag, v))
                }
            }
        }
    }
}

/// The result of reading KDF-DO bytes: `None` when KDF is not active (no data,
/// a first byte 0x00, or algorithm 0x00), else the three fields, which must all
/// be present.
pub open spec fn kdf_do_of(d: Seq<u8>) -> Result<Option<KdfDoView>, KdfError> {
    if d.len() == 0 || d[0] == 0 {
        Ok(None)
    } else {
        match kdf_walk(d, 0, no_fields()) {
            KdfWalk::Inactive => Ok(None),
            KdfWalk::LengthTruncated => Err(KdfError::LengthFieldTruncated),
            KdfWalk::ValueTruncated(tag, len) => Err(KdfError::ValueTruncated { tag, len: len as usize }),
            KdfWalk::Overflow => Err(KdfError::LengthFieldTruncated),
            KdfWalk::Fields(f) => {
                if f.hash_algo is None {
                    Err(KdfError::MissingHashAlgorithm)
                } else if f.iteration_count is None {
                    Err(KdfError::MissingIterationCount)
                } else if f.salt_pw3 is None {
                    Err(KdfError::MissingPw3Salt)
                } else {
                    Ok(
                        Some(
                            KdfDoView {
                                hash_algo: f.hash_algo.unwrap(),
                                iteration_count: f.iteration_count.unwrap(),
                                salt_pw3: f.salt_pw3.unwrap(),
                            },
                        ),
                    )
                }
            },
        }
    }
}

/// Where the walk over these KDF-DO bytes would compute a value end beyond
/// `usize::MAX` (the offset arithmetic overflows there).
pub open spec fn kdf_overflows(d: Seq<u8>) -> bool {
    kdf_walk(d, 0, no_fields()) is Overflow
}

/// The walk of [`kdf_walk`] from position 0, in executable form.
enum KdfScan {
    Inactive,
    LengthTruncated,
    ValueTruncated(u8, usize),
    Overflow,
    Fields(Option<u8>, Option<u32>, Option<Vec<u8>>),
}

spec fn opt_bytes(o: Option<Vec<u8>>) -> Option<Seq<u8>> {
    match o {
        Some(v) => Some(v@),
        None => None,
    }
}

spec fn scan_matches(r: KdfScan, w: KdfWalk) -> bool {
    match r {
        KdfScan::Inactive => w is Inactive,
        KdfScan::LengthTruncated => w is LengthTruncated,
        KdfScan::ValueTruncated(t, l) => w == KdfWalk::ValueTruncated(t, l as int),
        KdfScan::Overflow => w is Overflow,
        KdfScan::Fields(h, c, s) => w == KdfWalk::Fields(
            KdfFields { hash_algo: h, iteration_count: c, salt_pw3: opt_bytes(s) },
        ),
    }
}

fn walk_kdf(d: &[u8]) -> (r: KdfScan)
    ensures
        scan_matches(r, kdf_walk(d@, 0, no_fields())),
{
    let n = d.len();
    let mut hash: Option<u8> = None;
    let mut count: Option<u32> = None;
    let mut salt: Option<Vec<u8>> = None;
    let mut i: usize = 0;
    while n > 0 && i < n - 1
        invariant
            n == d@.len(),
            i <= n,
            kdf_walk(d@, 0, no_fields()) == kdf_walk(
                d@,
                i as int,
                KdfFields { hash_algo: hash, iteration_count: count, salt_pw3: opt_bytes(salt) },
            ),
        decreases n - i,
    {
        let ghost st = KdfFields { hash_algo: hash, iteration_count: count, salt_pw3: opt_bytes(salt) };
        let tag = d[i];
        let b = d[i + 1];
        let start: usize;
        let len: usize;
        if b < 0x80 {
            start = i + 2;
            len = b as usize;
        } else {
            let num = (b - 0x80) as usize;
            if num > n - (i + 2) {
                return KdfScan::LengthTruncated;
            }
            let mut l: usize = 0;
            let mut k: usize = 0;
            while k < num
                invariant
                    n == d@.len(),
                    i + 2 + num <= n,
                    k <= num,
                    l == long_len(d@.subrange(i + 2, i + 2 + k)),
                decreases num - k,
            {
                assert(d@.subrange(i + 2, i + 2 + k + 1).drop_last() =~= d@.subrange(
                    i + 2,
                    i + 2 + k,
                ));
                l = (l << 8) | (d[i + 2 + k] as usize);
                k = k + 1;
            }
            start = i + 2 + num;
            len = l;
        }
        if len > usize::MAX - start {
            return KdfScan::Overflow;
        }
        if len > n - start {
            return KdfScan::ValueTruncated(tag, len);
        }
        let ghost v = d@.subrange(start as int, start + len);
        if tag == 0x81 {
            if len == 0 || d[start] == 0 {
                return KdfScan::Inactive;
            }
        } else if tag == 0x82 {
            if len > 0 {
                hash = Some(d[start]);
            }
        } else if tag == 0x83 {
            if len >= 4 {
                let c = ((((d[start] as u32) * 256 + d[start + 1] as u32) * 256 + d[start + 2] as u32)
                    * 256 + d[start + 3] as u32);
                count = Some(c);
            }
        } else if tag == 0x86 {
            salt = Some(sub_bytes(d, start, start + len));
        }
        assert(KdfFields { hash_algo: hash, iteration_count: count, salt_pw3: opt_bytes(salt) }
            == absorb(st, tag, v));
        i = start + len;
    }
    KdfScan::Fields(hash, count, salt)
}

/// The walk over these KDF-DO bytes overflows (see [`kdf_overflows`]); such
/// bytes cannot be parsed.
pub fn kdf_lengths_overflow(kdf_data: &[u8]) -> (b: bool)
    ensures
        b == kdf_overflows(kdf_data@),
{
    match walk_kdf(kdf_data) {
        KdfScan::Overflow => true,
        _ => false,
    }
}

/// Reads the KDF-DO (DO 0xF9): `None` when KDF is not active, an error when the
/// TLV is malformed or a needed field is missing (see [`kdf_do_of`]).
pub fn parse_kdf_do(kdf_data: &[u8]) -> (r: Result<Option<KdfDo>, KdfError>)
    requires
        !kdf_overflows(kdf_data@),
    ensures
        match r {
            Ok(Some(k)) => kdf_do_of(kdf_data@) == Ok::<Option<KdfDoView>, KdfError>(Some(k@)),
            Ok(None) => kdf_do_of(kdf_data@) == Ok::<Option<KdfDoView>, KdfError>(None),
            Err(e) => kdf_do_of(kdf_data@) == Err::<Option<KdfDoView>, KdfError>(e),
        },
{
    let n = kdf_data.len();
    if n == 0 || kdf_data[0] == 0 {
        return Ok(None);
    }
    match walk_kdf(kdf_data) {
        KdfScan::Inactive => Ok(None),
        KdfScan::LengthTruncated => Err(KdfError::LengthFieldTruncated),
        KdfScan::ValueTruncated(tag, len) => Err(KdfError::ValueTruncated { tag, len }),
        KdfScan::Overflow => Err(KdfError::LengthFieldTruncated),
        KdfScan::Fields(hash, count, salt) => {
            match (hash, count, salt) {
                (Some(h), Some(c), Some(s)) => Ok(
                    Some(KdfDo { hash_algo: h, iteration_count: c, salt_pw3: s }),
                ),
                (None, _, _) => Err(KdfError::MissingHashAlgorithm),
                (Some(_), None, _) => Err(KdfError::MissingIterationCount),
                (Some(_), Some(_), None) => Err(KdfError::MissingPw3Salt),
            }
        },
    }
}

/// What SHA-256 returns for these bytes.
pub uninterp spec fn sha256(data: Seq<u8>) -> Seq<u8>;

/// `sha2::Sha256::digest`: the SHA-256 digest of `data`, 32 bytes. The digest is
/// named, not restated.
#[verifier::external_body]
fn sha256_digest(data: &[u8]) -> (h: Vec<u8>)
    ensures
        h@ == sha256(data@),
        h@.len() == 32,
{
    <sha2::Sha256 as sha2::Digest>::digest(data).to_vec()
}

/// The iterated-S2K input: the first `count` bytes of `unit` repeated.
pub open spec fn s2k_input(unit: Seq<u8>, count: nat) -> Seq<u8> {
    Seq::new(count, |j: int| unit[j % unit.len() as int])
}

/// Builds the iterated-S2K input (see [`s2k_input`]).
pub fn s2k_input_bytes(unit: &[u8], count: usize) -> (data: Vec<u8>)
    requires
        unit@.len() > 0 || count == 0,
    ensures
        data@ == s2k_input(unit@, count as nat),
{
    let u = unit.len();
    let mut data: Vec<u8> = Vec::new();
    while data.len() < count
        invariant
            u == unit@.len(),
            u > 0 || count == 0,
            data@.len() <= count,
            (data@.len() as int) % (u as int) == 0 || data@.len() == count,
            data@ == s2k_input(unit@, data@.len()),
        decreases count - data@.len(),
    {
        let len0 = data.len();
        let remaining = count - len0;
        let m = if remaining < u {
            remaining
        } else {
            u
        };
        let ghost before = data@;
        assert((len0 as int) % (u as int) == 0);
        let mut t: usize = 0;
        while t < m
            invariant
                u == unit@.len(),
                m <= u,
                len0 + m <= count,
                (len0 as int) % (u as int) == 0,
                t <= m,
                data@ == before + unit@.subrange(0, t as int),
                before == s2k_input(unit@, len0 as nat),
            decreases m - t,
        {
            data.push(unit[t]);
            t = t + 1;
            assert(data@ =~= before + unit@.subrange(0, t as int));
        }
        assert forall|j: int| len0 <= j < len0 + m implies #[trigger] (j % (u as int)) == j - len0 by {
            lemma_add_mod_noop(len0 as int, j - len0, u as int);
            lemma_small_mod((j - len0) as nat, u as nat);
            lemma_small_mod(0, u as nat);
        }
        assert(data@ =~= s2k_input(unit@, data@.len()));
        proof {
            if m == u {
                lemma_mod_add_multiples_vanish(len0 as int, u as int);
            }
        }
    }
    data
}

/// The iteration-count ceiling as the card's `u32` count.
pub open spec fn kdf_count_ok(c: u32) -> bool {
    c <= KDF_MAX_COUNT
}

/// The PIN as the card expects it in VERIFY when KDF is active: SHA-256 over the
/// first `iteration_count` bytes of `salt_pw3 || pin` repeated.
pub open spec fn kdf_hash_of(d: Seq<u8>, pin: Seq<u8>) -> Result<Seq<u8>, KdfError> {
    match kdf_do_of(d) {
        Err(e) => Err(e),
        Ok(None) => Err(KdfError::NotActive),
        Ok(Some(k)) => {
            if k.hash_algo != 0x08 {
                Err(KdfError::UnsupportedHashAlgorithm(k.hash_algo))
            } else if !kdf_count_ok(k.iteration_count) {
                Err(KdfError::IterationCountTooLarge(k.iteration_count as usize))
            } else {
                Ok(sha256(s2k_input(k.salt_pw3 + pin, k.iteration_count as nat)))
            }
        },
    }
}

/// The S2K input of a hash would be built from an empty unit with a positive
/// count (the repetition never ends there).
pub open spec fn kdf_unit_empty(d: Seq<u8>, pin: Seq<u8>) -> bool {
    match kdf_do_of(d) {
        Ok(Some(k)) => k.hash_algo == 0x08 && kdf_count_ok(k.iteration_count)
            && k.iteration_count > 0 && k.salt_pw3.len() + pin.len() == 0,
        _ => false,
    }
}

/// Hashes a PIN with the card's iterated S2K (SHA-256) for VERIFY when KDF is
/// active (see [`kdf_hash_of`]).
pub fn kdf_hash_pin(kdf_data: &[u8], pin: &[u8]) -> (r: Result<Vec<u8>, KdfError>)
    requires
        !kdf_overflows(kdf_data@),
        !kdf_unit_empty(kdf_data@, pin@),
    ensures
        match r {
            Ok(h) => kdf_hash_of(kdf_data@, pin@) == Ok::<Seq<u8>, KdfError>(h@) && h@.len() == 32,
            Err(e) => kdf_hash_of(kdf_data@, pin@) == Err::<Seq<u8>, KdfError>(e),
        },
{
    let kdf = match parse_kdf_do(kdf_data) {
        Ok(Some(k)) => k,
        Ok(None) => return Err(KdfError::NotActive),
        Err(e) => return Err(e),
    };
    if kdf.hash_algo != 0x08 {
        return Err(KdfError::UnsupportedHashAlgorithm(kdf.hash_algo));
    }
    let count = kdf.iteration_count as usize;
    if count > KDF_MAX_COUNT {
        return Err(KdfError::IterationCountTooLarge(count));
    }
    let mut unit = kdf.salt_pw3;
    push_bytes(&mut unit, pin);
    let data = s2k_input_bytes(&unit, count);
    Ok(sha256_digest(&data))
}

/// The UIF data object of an OpenPGP slot name (`sig`, `enc`, `aut`, `att`).
pub open spec fn uif_tag(slot: Seq<char>) -> Option<u8> {
    if slot == "sig"@ {
        Some(0xD6)
    } else if slot == "enc"@ {
        Some(0xD7)
    } else if slot == "aut"@ {
        Some(0xD8)
    } else if slot == "att"@ {
        Some(0xD9)
    } else {
        None
    }
}

/// Why setting a touch policy failed after it started.
#[derive(Debug, Clone, Copy, PartialEq, Eq, Structural)]
pub enum TouchSetError {
    /// The card's KDF-DO has a length whose end overflows the address range.
    KdfLengthsOverflow,
    /// KDF is active but salt and PIN are both empty, so no S2K input exists.
    KdfEmptyInput,
    /// The KDF-DO could not be used.
    Kdf(KdfError),
    /// VERIFY of the Admin PIN was answered with this status.
    VerifyFailed(u16),
    /// PUT DATA of the policy was answered with this status.
    PutDataFailed(u16),
    /// The session had already ended.
    SessionOver,
}

/// The PIN bytes that VERIFY sends: the raw PIN unless the card's KDF-DO (read
/// with GET DATA 0xF9; `None` when that failed) is active, then its S2K hash.
pub open spec fn pin_for_verify(kdf: Option<Seq<u8>>, pin: Seq<u8>) -> Result<Seq<u8>, TouchSetError> {
    match kdf {
        None => Ok(pin),
        Some(d) => if kdf_overflows(d) {
            Err(TouchSetError::KdfLengthsOverflow)
        } else {
            match kdf_do_of(d) {
                Err(e) => Err(TouchSetError::Kdf(e)),
                Ok(None) => Ok(pin),
                Ok(Some(_)) => if kdf_unit_empty(d, pin) {
                    Err(TouchSetError::KdfEmptyInput)
                } else {
                    match kdf_hash_of(d, pin) {
                        Ok(h) => Ok(h),
                        Err(e) => Err(TouchSetError::Kdf(e)),
                    }
                },
            }
        },
    }
}

/// `0x` and four upper-case hex digits (`format!("{:#06X}", w)`).
pub open spec fn hex_word_text(w: u16) -> Seq<char> {
    seq![
        '0',
        'x',
        hex_digit_upper(w as int / 4096),
        hex_digit_upper((w as int / 256) % 16),
        hex_digit_upper((w as int / 16) % 16),
        hex_digit_upper(w as int % 16),
    ]
}

/// The report after a touch policy was set.
pub open spec fn touch_set_message(
    policy: PolicyView,
    slot: Seq<char>,
    verify_sw: u16,
    put_sw: u16,
    readback: u8,
) -> Seq<char> {
    "Touch policy set to "@ + policy_label(policy) + " for slot "@ + slot + " [VERIFY="@
        + hex_word_text(verify_sw) + " PUT="@ + hex_word_text(put_sw) + " readback="@
        + hex_byte_text(readback) + "]"@
}

/// PUT DATA of a UIF data object: policy byte and 0x20 (the button feature).
pub open spec fn put_uif_apdu(tag: u8, policy_byte: u8) -> Seq<u8> {
    seq![0x00u8, 0xDA, 0x00, tag, 0x02, policy_byte, 0x20]
}

/// The response a touch policy session waits for.
#[derive(Debug, Clone, Copy, PartialEq, Eq, Structural)]
pub enum TouchSetStage {
    /// GET DATA 0xF9 (the KDF-DO).
    AwaitKdf,
    AwaitVerify,
    AwaitPut,
    /// GET DATA of the UIF object, read back.
    AwaitReadback,
    Over,
}

/// Setting the touch policy of one slot on a selected OpenPGP applet.
pub struct TouchPolicySession {
    pub slot: String,
    pub policy: TouchPolicy,
    pub admin_pin: Vec<u8>,
    pub do_tag: u8,
    pub stage: TouchSetStage,
    pub verify_sw: u16,
    pub put_sw: u16,
}

/// The mathematical value of a [`TouchPolicySession`].
pub struct TouchSessionView {
    pub slot: Seq<char>,
    pub policy: PolicyView,
    pub admin_pin: Seq<u8>,
    pub do_tag: u8,
    pub stage: TouchSetStage,
    pub verify_sw: u16,
    pub put_sw: u16,
}

impl View for TouchPolicySession {
    type V = TouchSessionView;

    open spec fn view(&self) -> TouchSessionView {
        TouchSessionView {
            slot: self.slot@,
            policy: self.policy@,
            admin_pin: self.admin_pin@,
            do_tag: self.do_tag,
            stage: self.stage,
            verify_sw: self.verify_sw,
            put_sw: self.put_sw,
        }
    }
}

/// What the caller does next.
#[derive(Debug)]
pub enum TouchSetStep {
    /// GET DATA with P1 00 and this P2; hand back its data, or `None` on failure.
    GetData(u8),
    /// Transmit this APDU and hand back the response.
    Transmit(Vec<u8>),
    /// Done; disconnect leaving the card powered, and show this report.
    Done(String),
    Failed(TouchSetError),
}

/// The mathematical value of a [`TouchSetStep`].
pub enum TouchStepView {
    GetData(u8),
    Transmit(Seq<u8>),
    Done(Seq<char>),
    Failed(TouchSetError),
}

impl View for TouchSetStep {
    type V = TouchStepView;

    open spec fn view(&self) -> TouchStepView {
        match self {
            TouchSetStep::GetData(p2) => TouchStepView::GetData(*p2),
            TouchSetStep::Transmit(a) => TouchStepView::Transmit(a@),
            TouchSetStep::Done(m) => TouchStepView::Done(m@),
            TouchSetStep::Failed(e) => TouchStepView::Failed(*e),
        }
    }
}

/// The session with a new stage.
pub open spec fn at_stage(s: TouchSessionView, stage: TouchSetStage) -> TouchSessionView {
    TouchSessionView { stage, ..s }
}

/// The next session and step when `reply` (the GET DATA data or the response;
/// `None` for a failed GET DATA) arrives.
pub open spec fn touch_next(s: TouchSessionView, reply: Option<Seq<u8>>) -> (TouchSessionView, TouchStepView) {
    let sw = match reply {
        Some(r) => status_word(r),
        None => 0,
    };
    match s.stage {
        TouchSetStage::AwaitKdf => match pin_for_verify(reply, s.admin_pin) {
            Err(e) => (at_stage(s, TouchSetStage::Over), TouchStepView::Failed(e)),
            Ok(p) => (
                at_stage(s, TouchSetStage::AwaitVerify),
                TouchStepView::Transmit(verify_admin_pin_apdu_spec(p)),
            ),
        },
        TouchSetStage::AwaitVerify => if sw != 0x9000 {
            (at_stage(s, TouchSetStage::Over), TouchStepView::Failed(TouchSetError::VerifyFailed(sw)))
        } else {
            (
                TouchSessionView { stage: TouchSetStage::AwaitPut, verify_sw: sw, ..s },
                TouchStepView::Transmit(put_uif_apdu(s.do_tag, byte_of_policy(s.policy))),
            )
        },
        TouchSetStage::AwaitPut => if sw != 0x9000 {
            (at_stage(s, TouchSetStage::Over), TouchStepView::Failed(TouchSetError::PutDataFailed(sw)))
        } else {
            (
                TouchSessionView { stage: TouchSetStage::AwaitReadback, put_sw: sw, ..s },
                TouchStepView::GetData(s.do_tag),
            )
        },
        TouchSetStage::AwaitReadback => {
            let rb: u8 = match reply {
                Some(d) => if d.len() > 0 {
                    d[0]
                } else {
                    0xFF
                },
                None => 0xFF,
            };
            (
                at_stage(s, TouchSetStage::Over),
                TouchStepView::Done(touch_set_message(s.policy, s.slot, s.verify_sw, s.put_sw, rb)),
            )
        },
        TouchSetStage::Over => (s, TouchStepView::Failed(TouchSetError::SessionOver)),
    }
}

pub fn push_hex_word(s: &mut String, w: u16)
    ensures
        final(s)@ == old(s)@ + hex_word_text(w),
{
    let v = vec![
        '0',
        'x',
        hex_digit_upper_exec((w / 4096) as u8),
        hex_digit_upper_exec(((w / 256) % 16) as u8),
        hex_digit_upper_exec(((w / 16) % 16) as u8),
        hex_digit_upper_exec((w % 16) as u8),
    ];
    assert(v@ =~= hex_word_text(w));
    push_chars(s, &v);
}

/// Starts setting the touch policy of `slot` (`sig`, `enc`, `aut` or `att`) on
/// a selected OpenPGP applet; an unknown slot is refused with a message. The
/// serial number is accepted for compatibility and not used. The session
/// starts with GET DATA 0xF9.
pub fn set_touch_policy(
    slot: &str,
    policy: &TouchPolicy,
    _serial: Option<u32>,
    admin_pin: &str,
) -> (r: Result<(TouchPolicySession, TouchSetStep), String>)
    ensures
        match r {
            Ok((s, step)) => {
                &&& uif_tag(slot@) == Some(s.do_tag)
                &&& s@ == (TouchSessionView {
                    slot: slot@,
                    policy: policy@,
                    admin_pin: admin_pin.spec_bytes(),
                    do_tag: s.do_tag,
                    stage: TouchSetStage::AwaitKdf,
                    verify_sw: 0,
                    put_sw: 0,
                })
                &&& step@ == TouchStepView::GetData(0xF9)
            },
            Err(m) => uif_tag(slot@).is_none() && m@ == "Invalid slot '"@ + slot@
                + "'. Must be one of: sig, enc, aut, att"@,
        },
{
    let v = chars_of(slot);
    let tag: u8 = if is_literal(&v, "sig") {
        0xD6
    } else if is_literal(&v, "enc") {
        0xD7
    } else if is_literal(&v, "aut") {
        0xD8
    } else if is_literal(&v, "att") {
        0xD9
    } else {
        let mut m = String::from_str("Invalid slot '");
        m.append(slot);
        m.append("'. Must be one of: sig, enc, aut, att");
        return Err(m);
    };
    let bytes = admin_pin.as_bytes();
    let mut pin: Vec<u8> = Vec::new();
    push_bytes(&mut pin, bytes);
    Ok(
        (
            TouchPolicySession {
                slot: slot.to_owned(),
                policy: policy.copy(),
                admin_pin: pin,
                do_tag: tag,
                stage: TouchSetStage::AwaitKdf,
                verify_sw: 0,
                put_sw: 0,
            },
            TouchSetStep::GetData(0xF9),
        ),
    )
}

/// The PIN bytes for VERIFY (see [`pin_for_verify`]).
pub fn admin_pin_for_verify(kdf: Option<&[u8]>, pin: &[u8]) -> (r: Result<Vec<u8>, TouchSetError>)
    ensures
        match r {
            Ok(p) => pin_for_verify(
                match kdf {
                    Some(d) => Some(d@),
                    None => None,
                },
                pin@,
            ) == Ok::<Seq<u8>, TouchSetError>(p@),
            Err(e) => pin_for_verify(
                match kdf {
                    Some(d) => Some(d@),
                    None => None,
                },
                pin@,
            ) == Err::<Seq<u8>, TouchSetError>(e),
        },
{
    let mut raw: Vec<u8> = Vec::new();
    push_bytes(&mut raw, pin);
    match kdf {
        None => Ok(raw),
        Some(d) => {
            if kdf_lengths_overflow(d) {
                return Err(TouchSetError::KdfLengthsOverflow);
            }
            match parse_kdf_do(d) {
                Err(e) => Err(TouchSetError::Kdf(e)),
                Ok(None) => Ok(raw),
                Ok(Some(k)) => {
                    let active = k.hash_algo == 0x08 && (k.iteration_count as usize) <= KDF_MAX_COUNT
                        && k.iteration_count > 0;
                    if active && k.salt_pw3.len() == 0 && pin.len() == 0 {
                        return Err(TouchSetError::KdfEmptyInput);
                    }
                    match kdf_hash_pin(d, pin) {
                        Ok(h) => Ok(h),
                        Err(e) => Err(TouchSetError::Kdf(e)),
                    }
                },
            }
        },
    }
}

impl TouchPolicySession {
    /// Takes the reply to the last step and says what to do next (see
    /// [`touch_next`]).
    pub fn step(&mut self, reply: Option<&[u8]>) -> (r: TouchSetStep)
        ensures
            (final(self)@, r@) == touch_next(
                old(self)@,
                match reply {
                    Some(d) => Some(d@),
                    None => None,
                },
            ),
    {
        let sw = match reply {
            Some(d) => apdu_sw(d),
            None => 0,
        };
        match self.stage {
            TouchSetStage::AwaitKdf => {
                match admin_pin_for_verify(reply, &self.admin_pin) {
                    Err(e) => {
                        self.stage = TouchSetStage::Over;
                        TouchSetStep::Failed(e)
                    },
                    Ok(p) => {
                        self.stage = TouchSetStage::AwaitVerify;
                        TouchSetStep::Transmit(verify_admin_pin_apdu(&p))
                    },
                }
            },
            TouchSetStage::AwaitVerify => {
                if sw != 0x9000 {
                    self.stage = TouchSetStage::Over;
                    TouchSetStep::Failed(TouchSetError::VerifyFailed(sw))
                } else {
                    self.stage = TouchSetStage::AwaitPut;
                    self.verify_sw = sw;
                    let a = vec![0x00u8, 0xDA, 0x00, self.do_tag, 0x02, self.policy.to_byte(), 0x20];
                    assert(a@ =~= put_uif_apdu(self.do_tag, byte_of_policy(self.policy@)));
                    TouchSetStep::Transmit(a)
                }
            },
            TouchSetStage::AwaitPut => {
                if sw != 0x9000 {
                    self.stage = TouchSetStage::Over;
                    TouchSetStep::Failed(TouchSetError::PutDataFailed(sw))
                } else {
                    self.stage = TouchSetStage::AwaitReadback;
                    self.put_sw = sw;
                    TouchSetStep::GetData(self.do_tag)
                }
            },
            TouchSetStage::AwaitReadback => {
                let rb: u8 = match reply {
                    Some(d) => if d.len() > 0 {
                        d[0]
                    } else {
                        0xFF
                    },
                    None => 0xFF,
                };
                self.stage = TouchSetStage::Over;
                let mut m = String::from_str("Touch policy set to ");
                let label = self.policy.to_string();
                m.append(label.as_str());
                m.append(" for slot ");
                m.append(self.slot.as_str());
                m.append(" [VERIFY=");
                push_hex_word(&mut m, self.verify_sw);
                m.append(" PUT=");
                push_hex_word(&mut m, self.put_sw);
                m.append(" readback=");
                push_hex_byte(&mut m, rb);
                m.append("]");
                TouchSetStep::Done(m)
            },
            TouchSetStage::Over => TouchSetStep::Failed(TouchSetError::SessionOver),
        }
    }
}

/// A UIF byte of a known policy (0 to 4) comes back from its policy.
pub proof fn lemma_uif_byte_roundtrip(b: u8)
    requires
        b <= 4,
    ensures
        byte_of_policy(policy_of_byte(b)) == b,
{
}

/// A known policy comes back from its UIF byte.
pub proof fn lemma_known_policy_roundtrip(p: PolicyView)
    requires
        !(p is Unknown),
    ensures
        policy_of_byte(byte_of_policy(p)) == p,
{
}

/// The `ykman` word of a known policy reads back as that policy.
pub proof fn lemma_ykman_word_roundtrip(p: PolicyView)
    requires
        !(p is Unknown),
    ensures
        policy_of_text(ykman_arg(p)) == p,
{
    reveal_strlit("off");
    reveal_strlit("on");
    reveal_strlit("fixed");
    reveal_strlit("cached");
    reveal_strlit("cached-fixed");
    let w = ykman_arg(p);
    lemma_trim_of_trimmed(w);
    assert(is_ascii_chars(w));
    assert(ascii_lowered(w) =~= w);
}

/// Reading ASCII policy text ignores the whitespace around it and letter case:
/// the text reads as its own trimmed, lower-cased form does.
pub proof fn lemma_policy_text_normal_form(s: Seq<char>)
    requires
        is_ascii_chars(trim(s)),
    ensures
        policy_of_text(case_lower(trim(s))) == policy_of_text(s),
{
    let t = trim(s);
    let l = ascii_lowered(t);
    lemma_trim_ends(s);
    lemma_ascii_lowered(t);
    if l.len() > 0 {
        assert(is_ws(l[0]) == is_ws(t[0]));
        assert(is_ws(l[l.len() - 1]) == is_ws(t[t.len() - 1]));
    }
    lemma_trim_of_trimmed(l);
}

/// Without a `Touch policies:` line the scan never enters the section, so all
/// four slots read as off.
pub proof fn lemma_no_section_all_off(output: Seq<char>)
    requires
        forall|i: int| 0 <= i < lines(output).len() ==> !starts_with(
            trim(#[trigger] lines(output)[i]),
            "Touch policies:"@,
        ),
    ensures
        touch_policies_of(output) == all_off(),
{
    lemma_scan_outside(lines(output));
}

proof fn lemma_scan_outside(ls: Seq<Seq<char>>)
    requires
        forall|i: int| 0 <= i < ls.len() ==> !starts_with(trim(#[trigger] ls[i]), "Touch policies:"@),
    ensures
        scan_lines(ls) == scan_start(),
    decreases ls.len(),
{
    if ls.len() > 0 {
        assert forall|i: int| 0 <= i < ls.drop_last().len() implies !starts_with(
            trim(#[trigger] ls.drop_last()[i]),
            "Touch policies:"@,
        ) by {
            assert(ls.drop_last()[i] == ls[i]);
        }
        lemma_scan_outside(ls.drop_last());
        assert(!starts_with(trim(ls[ls.len() - 1]), "Touch policies:"@));
    }
}

/// The S2K input is consistent across counts: a shorter input is a prefix of a
/// longer one, and `unit.len()` bytes are the unit itself.
pub proof fn lemma_s2k_prefix(unit: Seq<u8>, n: nat, m: nat)
    requires
        n <= m,
        unit.len() > 0,
    ensures
        s2k_input(unit, m).take(n as int) == s2k_input(unit, n),
        s2k_input(unit, unit.len()) == unit,
{
    assert(s2k_input(unit, m).take(n as int) =~= s2k_input(unit, n));
    assert forall|j: int| 0 <= j < unit.len() implies #[trigger] s2k_input(unit, unit.len())[j] == unit[j] by {
        lemma_small_mod(j as nat, unit.len());
    }
    assert(s2k_input(unit, unit.len()) =~= unit);
}

/// The S2K input repeats the unit: a count of one unit and `r` more bytes is the
/// unit followed by its first `r` bytes (so twice the unit for `r` equal to its
/// length).
pub proof fn lemma_s2k_next_chunk(unit: Seq<u8>, r: nat)
    requires
        unit.len() > 0,
        r <= unit.len(),
    ensures
        s2k_input(unit, unit.len() + r) == unit + unit.take(r as int),
{
    let n = unit.len();
    assert forall|j: int| 0 <= j < n + r implies #[trigger] s2k_input(unit, n + r)[j] == (unit + unit.take(
        r as int,
    ))[j] by {
        if j < n {
            lemma_small_mod(j as nat, n);
        } else {
            lemma_mod_add_multiples_vanish(j - n, n as int);
            lemma_small_mod((j - n) as nat, n);
        }
    }
    assert(s2k_input(unit, n + r) =~= unit + unit.take(r as int));
}

/// The order of the session's stages.
pub open spec fn touch_rank(st: TouchSetStage) -> int {
    match st {
        TouchSetStage::AwaitKdf => 0,
        TouchSetStage::AwaitVerify => 1,
        TouchSetStage::AwaitPut => 2,
        TouchSetStage::AwaitReadback => 3,
        TouchSetStage::Over => 4,
    }
}

/// A touch policy session only moves forward, and it writes the policy (PUT
/// DATA) only right after VERIFY of the Admin PIN answered 0x9000.
pub proof fn lemma_touch_put_after_verify(s: TouchSessionView, reply: Option<Seq<u8>>)
    ensures
        touch_rank(touch_next(s, reply).0.stage) > touch_rank(s.stage) || touch_next(s, reply).0.stage
            == TouchSetStage::Over,
        touch_next(s, reply).1 is Transmit && s.stage != TouchSetStage::AwaitKdf ==> s.stage
            == TouchSetStage::AwaitVerify && (reply matches Some(r) && status_word(r) == 0x9000),
{
}

} // verus!
