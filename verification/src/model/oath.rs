//! OATH (TOTP/HOTP) applet: APDU encoding and response decoding.
use vstd::prelude::*;
use vstd::string::*;
use vstd::arithmetic::div_mod::{lemma_breakdown, lemma_div_denominator, lemma_div_multiples_vanish_fancy, lemma_fundamental_div_mod, lemma_mod_mod};
use crate::text::{chars_of, to_uppercase_chars, split_once, split_once_chars, string_from_chars, utf8_lossy, utf8_lossy_chars, zero_padded, zero_padded_chars};

verus! {

/// The kind of one-time password.
#[derive(Debug, Clone, Copy, PartialEq, Eq, Structural)]
pub enum OathType {
    Totp,
    Hotp,
}

/// The HMAC algorithm of a credential.
#[derive(Debug, Clone, Copy, PartialEq, Eq, Structural)]
pub enum OathAlgorithm {
    Sha1,
    Sha256,
    Sha512,
}

impl OathType {
    /// The display text of the type.
    pub open spec fn label(self) -> Seq<char> {
        match self {
            OathType::Totp => "TOTP"@,
            OathType::Hotp => "HOTP"@,
        }
    }

    /// Display text: `TOTP` or `HOTP`.
    pub fn to_string(&self) -> (s: String)
        ensures
            s@ == self.label(),
    {
        match self {
            OathType::Totp => String::from_str("TOTP"),
            OathType::Hotp => String::from_str("HOTP"),
        }
    }
}

impl OathAlgorithm {
    /// The display text of the algorithm.
    pub open spec fn label(self) -> Seq<char> {
        match self {
            OathAlgorithm::Sha1 => "SHA-1"@,
            OathAlgorithm::Sha256 => "SHA-256"@,
            OathAlgorithm::Sha512 => "SHA-512"@,
        }
    }

    /// Display text: `SHA-1`, `SHA-256` or `SHA-512`.
    pub fn to_string(&self) -> (s: String)
        ensures
            s@ == self.label(),
    {
        match self {
            OathAlgorithm::Sha1 => String::from_str("SHA-1"),
            OathAlgorithm::Sha256 => String::from_str("SHA-256"),
            OathAlgorithm::Sha512 => String::from_str("SHA-512"),
        }
    }
}

/// One credential stored in the OATH applet.
#[derive(Debug)]
pub struct OathCredential {
    pub name: String,
    pub issuer: Option<String>,
    pub oath_type: OathType,
    pub algorithm: OathAlgorithm,
    pub digits: u8,
    pub period: u32,
    pub code: Option<String>,
    pub touch_required: bool,
}

/// The mathematical value of an [`OathCredential`].
pub struct OathCredentialView {
    pub name: Seq<char>,
    pub issuer: Option<Seq<char>>,
    pub oath_type: OathType,
    pub algorithm: OathAlgorithm,
    pub digits: u8,
    pub period: u32,
    pub code: Option<Seq<char>>,
    pub touch_required: bool,
}

/// The view of an optional string.
pub open spec fn opt_view(o: Option<String>) -> Option<Seq<char>> {
    match o {
        Some(s) => Some(s@),
        None => None,
    }
}

impl View for OathCredential {
    type V = OathCredentialView;

    open spec fn view(&self) -> OathCredentialView {
        OathCredentialView {
            name: self.name@,
            issuer: opt_view(self.issuer),
            oath_type: self.oath_type,
            algorithm: self.algorithm,
            digits: self.digits,
            period: self.period,
            code: opt_view(self.code),
            touch_required: self.touch_required,
        }
    }
}

/// The views of a sequence of credentials.
pub open spec fn cred_views(s: Seq<OathCredential>) -> Seq<OathCredentialView> {
    s.map_values(|c: OathCredential| c@)
}

impl OathCredential {
    /// A TOTP/SHA-1 credential with an empty name, 6 digits and a 30 s period.
    pub fn default() -> (c: Self)
        ensures
            c@ == (OathCredentialView {
                name: Seq::empty(),
                issuer: None,
                oath_type: OathType::Totp,
                algorithm: OathAlgorithm::Sha1,
                digits: 6,
                period: 30,
                code: None,
                touch_required: false,
            }),
    {
        OathCredential {
            name: String::new(),
            issuer: None,
            oath_type: OathType::Totp,
            algorithm: OathAlgorithm::Sha1,
            digits: 6,
            period: 30,
            code: None,
            touch_required: false,
        }
    }
}

/// The credentials of the applet, or the fact that it is password protected.
#[derive(Debug)]
pub struct OathState {
    pub credentials: Vec<OathCredential>,
    pub password_required: bool,
}

/// Tag of a credential name.
pub const TAG_NAME: u8 = 0x71;
/// Tag of a credential key.
pub const TAG_KEY: u8 = 0x73;
/// Tag of a challenge.
pub const TAG_CHALLENGE: u8 = 0x74;
/// Tag of a full response.
pub const TAG_RESPONSE: u8 = 0x75;
/// Tag of a truncated response.
pub const TAG_TRUNCATED: u8 = 0x76;

/// The items of a simple TLV stream: a tag byte, a length byte (or `0x81` and
/// a length byte), then the value. Reading stops at the first item that does
/// not fit in the data.
pub open spec fn tlv_items(d: Seq<u8>) -> Seq<(u8, Seq<u8>)>
    decreases d.len(),
{
    if d.len() < 2 {
        Seq::empty()
    } else {
        let long = d[1] == 0x81;
        if long && d.len() < 3 {
            Seq::empty()
        } else {
            let hdr: int = if long { 3 } else { 2 };
            let len: int = if long { d[2] as int } else { d[1] as int };
            if hdr + len > d.len() {
                Seq::empty()
            } else {
                seq![(d[0], d.subrange(hdr, hdr + len))] + tlv_items(
                    d.subrange(hdr + len, d.len() as int),
                )
            }
        }
    }
}

/// The views of parsed TLV items.
pub open spec fn tlv_views(s: Seq<(u8, Vec<u8>)>) -> Seq<(u8, Seq<u8>)> {
    s.map_values(|t: (u8, Vec<u8>)| (t.0, t.1@))
}

/// A copy of `v[lo..hi]`.
pub fn sub_bytes(v: &[u8], lo: usize, hi: usize) -> (r: Vec<u8>)
    requires
        lo <= hi <= v@.len(),
    ensures
        r@ == v@.subrange(lo as int, hi as int),
{
    let mut r: Vec<u8> = Vec::new();
    let mut i = lo;
    while i < hi
        invariant
            lo <= i <= hi <= v@.len(),
            r@ == v@.subrange(lo as int, i as int),
        decreases hi - i,
    {
        r.push(v[i]);
        i = i + 1;
        assert(r@ =~= v@.subrange(lo as int, i as int));
    }
    r
}

/// Splits a simple TLV stream into its items (see [`tlv_items`]).
pub fn parse_tlv(data: &[u8]) -> (r: Vec<(u8, Vec<u8>)>)
    ensures
        tlv_views(r@) == tlv_items(data@),
{
    let n = data.len();
    let mut result: Vec<(u8, Vec<u8>)> = Vec::new();
    let mut pos: usize = 0;
    assert(data@.subrange(0, n as int) =~= data@);
    while pos < n
        invariant
            n == data@.len(),
            pos <= n,
            tlv_views(result@) + tlv_items(data@.subrange(pos as int, n as int)) == tlv_items(
                data@,
            ),
        decreases n - pos,
    {
        let ghost rest = data@.subrange(pos as int, n as int);
        if pos + 1 >= n {
            assert(tlv_items(rest) =~= Seq::<(u8, Seq<u8>)>::empty());
            assert(tlv_views(result@) =~= tlv_views(result@) + tlv_items(rest));
            return result;
        }
        let tag = data[pos];
        let mut p = pos + 1;
        let len: usize;
        if data[p] == 0x81 {
            if p + 1 >= n {
                assert(tlv_views(result@) =~= tlv_views(result@) + tlv_items(rest));
                return result;
            }
            p = p + 1;
            len = data[p] as usize;
        } else {
            len = data[p] as usize;
        }
        p = p + 1;
        if len > n - p {
            assert(tlv_views(result@) =~= tlv_views(result@) + tlv_items(rest));
            return result;
        }
        let value = sub_bytes(data, p, p + len);
        let ghost old_views = tlv_views(result@);
        result.push((tag, value));
        assert(tlv_views(result@) =~= old_views.push((tag, value@)));
        assert(rest.subrange(p - pos, p - pos + len) =~= value@);
        assert(rest.subrange(p - pos + len, rest.len() as int) =~= data@.subrange(
            (p + len) as int,
            n as int,
        ));
        assert(tlv_items(rest) =~= seq![(tag, value@)] + tlv_items(
            data@.subrange((p + len) as int, n as int),
        ));
        pos = p + len;
        assert(tlv_views(result@) + tlv_items(data@.subrange(pos as int, n as int)) =~= old_views
            + tlv_items(rest));
    }
    assert(tlv_items(data@.subrange(pos as int, n as int)) =~= Seq::<(u8, Seq<u8>)>::empty());
    assert(tlv_views(result@) =~= tlv_views(result@) + Seq::<(u8, Seq<u8>)>::empty());
    result
}

/// The credential type encoded in the high nibble of a LIST type/algorithm byte.
pub open spec fn type_of_byte(b: u8) -> OathType {
    if b & 0x10 != 0 {
        OathType::Hotp
    } else {
        OathType::Totp
    }
}

/// The algorithm encoded in the low nibble of a LIST type/algorithm byte
/// (SHA-1 for an unknown value).
pub open spec fn algorithm_of_byte(b: u8) -> OathAlgorithm {
    if b & 0x0f == 0x02 {
        OathAlgorithm::Sha256
    } else if b & 0x0f == 0x03 {
        OathAlgorithm::Sha512
    } else {
        OathAlgorithm::Sha1
    }
}

/// The issuer part of a credential name `issuer:account`.
pub open spec fn issuer_of(name: Seq<char>) -> Option<Seq<char>> {
    match split_once(name, ':') {
        Some((iss, _)) => Some(iss),
        None => None,
    }
}

/// The credential that a LIST name item (type/algorithm byte, then the name) describes.
pub open spec fn listed_credential(v: Seq<u8>) -> OathCredentialView {
    let name = utf8_lossy(v.drop_first());
    OathCredentialView {
        name: name,
        issuer: issuer_of(name),
        oath_type: type_of_byte(v[0]),
        algorithm: algorithm_of_byte(v[0]),
        digits: 6,
        period: 30,
        code: None,
        touch_required: false,
    }
}

/// The credentials of a LIST response: one per non-empty name item, in order.
pub open spec fn listed_credentials(items: Seq<(u8, Seq<u8>)>) -> Seq<OathCredentialView>
    decreases items.len(),
{
    if items.len() == 0 {
        Seq::empty()
    } else {
        let r = listed_credentials(items.drop_last());
        let (t, v) = items.last();
        if t == TAG_NAME && v.len() > 0 {
            r.push(listed_credential(v))
        } else {
            r
        }
    }
}

fn issuer_from_name(name: &[char]) -> (r: Option<String>)
    ensures
        opt_view(r) == issuer_of(name@),
{
    match split_once_chars(name, ':') {
        Some((iss, _)) => Some(string_from_chars(&iss)),
        None => None,
    }
}

/// Decodes the credential list of a LIST response body.
pub fn parse_list_response(data: &[u8]) -> (r: Vec<OathCredential>)
    ensures
        cred_views(r@) == listed_credentials(tlv_items(data@)),
{
    let tlvs = parse_tlv(data);
    let mut credentials: Vec<OathCredential> = Vec::new();
    let mut i: usize = 0;
    assert(tlv_views(tlvs@).take(0) =~= Seq::<(u8, Seq<u8>)>::empty());
    while i < tlvs.len()
        invariant
            i <= tlvs@.len(),
            tlv_views(tlvs@) == tlv_items(data@),
            cred_views(credentials@) == listed_credentials(tlv_views(tlvs@).take(i as int)),
        decreases tlvs@.len() - i,
    {
        let ghost items = tlv_views(tlvs@);
        assert(items.take(i + 1).drop_last() =~= items.take(i as int));
        let tag = tlvs[i].0;
        let value = &tlvs[i].1;
        if tag == TAG_NAME && value.len() > 0 {
            let type_algo = value[0];
            let oath_type = if type_algo & 0x10 != 0 {
                OathType::Hotp
            } else {
                OathType::Totp
            };
            let algorithm = if type_algo & 0x0f == 0x02 {
                OathAlgorithm::Sha256
            } else if type_algo & 0x0f == 0x03 {
                OathAlgorithm::Sha512
            } else {
                OathAlgorithm::Sha1
            };
            let rest = sub_bytes(value, 1, value.len());
            assert(rest@ =~= value@.drop_first());
            let name_chars = utf8_lossy_chars(&rest);
            let issuer = issuer_from_name(&name_chars);
            let name = string_from_chars(&name_chars);
            let ghost old_views = cred_views(credentials@);
            credentials.push(
                OathCredential {
                    name,
                    issuer,
                    oath_type,
                    algorithm,
                    digits: 6,
                    period: 30,
                    code: None,
                    touch_required: false,
                },
            );
            assert(cred_views(credentials@) =~= old_views.push(listed_credential(value@)));
        }
        i = i + 1;
    }
    assert(tlv_views(tlvs@).take(tlvs@.len() as int) =~= tlv_views(tlvs@));
    credentials
}

/// `10^d`.
pub open spec fn pow10(d: nat) -> nat
    decreases d,
{
    if d == 0 {
        1
    } else {
        10 * pow10((d - 1) as nat)
    }
}

/// The big-endian number in the first four bytes of `v`.
pub open spec fn be_u32(v: Seq<u8>) -> nat {
    ((v[0] as nat * 256 + v[1] as nat) * 256 + v[2] as nat) * 256 + v[3] as nat
}

/// `i` is the first credential named `name`.
pub open spec fn is_first_named(creds: Seq<OathCredentialView>, name: Seq<char>, i: int) -> bool {
    &&& 0 <= i < creds.len()
    &&& creds[i].name == name
    &&& forall|j: int| 0 <= j < i ==> creds[j].name != name
}

/// The position of the first credential named `name`.
pub open spec fn first_named(creds: Seq<OathCredentialView>, name: Seq<char>) -> Option<int> {
    if exists|i: int| is_first_named(creds, name, i) {
        Some(choose|i: int| is_first_named(creds, name, i))
    } else {
        None
    }
}

/// `cred` with the code that a truncated response value `val` gives: the value
/// modulo `10^digits`, zero-padded to `digits` characters.
pub open spec fn with_code(cred: OathCredentialView, val: nat) -> OathCredentialView {
    OathCredentialView {
        code: Some(zero_padded(val % pow10(cred.digits as nat), cred.digits as nat)),
        ..cred
    }
}

/// Gives the first credential named `name` the code of `val`, if there is one.
pub open spec fn set_code(creds: Seq<OathCredentialView>, name: Seq<char>, val: nat) -> Seq<
    OathCredentialView,
> {
    match first_named(creds, name) {
        Some(k) => creds.update(k, with_code(creds[k], val)),
        None => creds,
    }
}

/// The credentials after a CALCULATE ALL response: a name item selects a
/// credential, the truncated-response item that follows it sets that
/// credential's code (when it holds at least four bytes) and ends the selection.
pub open spec fn apply_codes(
    items: Seq<(u8, Seq<u8>)>,
    creds: Seq<OathCredentialView>,
    current: Option<Seq<char>>,
) -> Seq<OathCredentialView>
    decreases items.len(),
{
    if items.len() == 0 {
        creds
    } else {
        let (t, v) = items[0];
        let rest = items.drop_first();
        if t == TAG_NAME {
            if v.len() > 0 {
                apply_codes(rest, creds, Some(utf8_lossy(v)))
            } else {
                apply_codes(rest, creds, current)
            }
        } else if t == TAG_TRUNCATED {
            let next = match current {
                Some(n) => if v.len() >= 4 {
                    set_code(creds, n, be_u32(v))
                } else {
                    creds
                },
                None => creds,
            };
            apply_codes(rest, next, None)
        } else {
            apply_codes(rest, creds, current)
        }
    }
}

proof fn lemma_first_named(creds: Seq<OathCredentialView>, name: Seq<char>, i: int)
    requires
        is_first_named(creds, name, i),
    ensures
        first_named(creds, name) == Some(i),
{
    let k = choose|k: int| is_first_named(creds, name, k);
    assert(is_first_named(creds, name, k));
    if k < i {
        assert(creds[k].name != name);
    }
    if i < k {
        assert(creds[i].name != name);
    }
}

fn pow10_u32(d: u8) -> (r: u32)
    requires
        d <= 9,
    ensures
        r as nat == pow10(d as nat),
        r >= 1,
{
    let mut r: u32 = 1;
    let mut i: u8 = 0;
    while i < d
        invariant
            i <= d <= 9,
            r as nat == pow10(i as nat),
            1 <= r <= 1_000_000_000,
        decreases d - i,
    {
        assert(pow10((i + 1) as nat) == 10 * pow10(i as nat));
        assert(i < 9 ==> r <= 100_000_000) by {
            assert(pow10(0) == 1);
            assert(pow10(1) == 10);
            assert(pow10(2) == 100);
            assert(pow10(3) == 1000);
            assert(pow10(4) == 10000);
            assert(pow10(5) == 100000);
            assert(pow10(6) == 1000000);
            assert(pow10(7) == 10000000);
            assert(pow10(8) == 100000000);
        }
        r = r * 10;
        i = i + 1;
    }
    r
}

/// Stores the code of a truncated response in the first credential named `name`.
fn store_code(credentials: &mut Vec<OathCredential>, name: &String, val: u32)
    requires
        forall|j: int| 0 <= j < old(credentials)@.len() ==> old(credentials)@[j].digits <= 9,
    ensures
        cred_views(final(credentials)@) == set_code(cred_views(old(credentials)@), name@, val as nat),
        forall|j: int| 0 <= j < final(credentials)@.len() ==> final(credentials)@[j].digits <= 9,
{
    let ghost old_views = cred_views(credentials@);
    let mut k: usize = 0;
    while k < credentials.len()
        invariant
            k <= credentials@.len(),
            cred_views(credentials@) == old_views,
            old_views == cred_views(old(credentials)@),
            forall|j: int| 0 <= j < credentials@.len() ==> credentials@[j].digits <= 9,
            forall|j: int| 0 <= j < k ==> old_views[j].name != name@,
        decreases credentials@.len() - k,
    {
        if credentials[k].name == *name {
            proof {
                lemma_first_named(old_views, name@, k as int);
            }
            let digits = credentials[k].digits;
            let modulus = pow10_u32(digits);
            let code = val % modulus;
            let text = zero_padded_chars(code as u64, digits as usize);
            let mut c = credentials.remove(k);
            c.code = Some(string_from_chars(&text));
            credentials.insert(k, c);
            assert(cred_views(credentials@) =~= old_views.update(
                k as int,
                with_code(old_views[k as int], val as nat),
            ));
            return;
        }
        k = k + 1;
    }
    assert(first_named(old_views, name@).is_none());
}

/// Updates the codes of `credentials` from a CALCULATE ALL response body
/// (see [`apply_codes`]).
pub fn parse_calculate_all_response(data: &[u8], credentials: &mut Vec<OathCredential>)
    requires
        forall|j: int| 0 <= j < old(credentials)@.len() ==> old(credentials)@[j].digits <= 9,
    ensures
        cred_views(final(credentials)@) == apply_codes(
            tlv_items(data@),
            cred_views(old(credentials)@),
            None,
        ),
{
    let tlvs = parse_tlv(data);
    let ghost items = tlv_views(tlvs@);
    let ghost goal = apply_codes(items, cred_views(credentials@), None);
    let mut current: Option<String> = None;
    let mut i: usize = 0;
    assert(items.subrange(0, items.len() as int) =~= items);
    while i < tlvs.len()
        invariant
            i <= tlvs@.len(),
            items == tlv_views(tlvs@),
            forall|j: int| 0 <= j < credentials@.len() ==> credentials@[j].digits <= 9,
            goal == apply_codes(
                items.subrange(i as int, items.len() as int),
                cred_views(credentials@),
                opt_view(current),
            ),
        decreases tlvs@.len() - i,
    {
        let ghost rest = items.subrange(i as int, items.len() as int);
        assert(rest.drop_first() =~= items.subrange(i + 1, items.len() as int));
        assert(rest[0] == (tlvs@[i as int].0, tlvs@[i as int].1@));
        let tag = tlvs[i].0;
        let value = &tlvs[i].1;
        if tag == TAG_NAME {
            if value.len() > 0 {
                let chars = utf8_lossy_chars(value);
                current = Some(string_from_chars(&chars));
            }
        } else if tag == TAG_TRUNCATED {
            match &current {
                Some(name) => {
                    if value.len() >= 4 {
                        let code_val: u32 = ((value[0] as u32 * 256 + value[1] as u32) * 256
                            + value[2] as u32) * 256 + value[3] as u32;
                        store_code(credentials, name, code_val);
                    }
                },
                None => {},
            }
            current = None;
        }
        i = i + 1;
    }
    assert(items.subrange(i as int, items.len() as int) =~= Seq::<(u8, Seq<u8>)>::empty());
}

/// `2^e`.
pub open spec fn p2(e: nat) -> nat
    decreases e,
{
    if e == 0 {
        1
    } else {
        2 * p2((e - 1) as nat)
    }
}

proof fn lemma_p2_add(a: nat, b: nat)
    ensures
        p2(a + b) == p2(a) * p2(b),
        p2(a) > 0,
    decreases b,
{
    lemma_p2_pos(a);
    if b == 0 {
        assert(a + b == a);
        assert(p2(b) == 1);
    } else {
        lemma_p2_add(a, (b - 1) as nat);
        assert(p2(a + b) == 2 * p2((a + b - 1) as nat));
        assert((a + b - 1) as nat == a + (b - 1) as nat);
        assert(p2(b) == 2 * p2((b - 1) as nat));
        assert(p2(a) * (2 * p2((b - 1) as nat)) == 2 * (p2(a) * p2((b - 1) as nat))) by (nonlinear_arith);
    }
}

proof fn lemma_p2_mono(a: nat, b: nat)
    requires
        a <= b,
    ensures
        p2(a) <= p2(b),
    decreases b - a,
{
    if a < b {
        lemma_p2_mono(a, (b - 1) as nat);
        lemma_p2_pos((b - 1) as nat);
    }
}

proof fn lemma_p2_pos(a: nat)
    ensures
        p2(a) > 0,
    decreases a,
{
    if a > 0 {
        lemma_p2_pos((a - 1) as nat);
    }
}

/// The 5-bit value of a Base32 character (RFC 4648 alphabet `A`-`Z`, `2`-`7`).
pub open spec fn b32_value(c: char) -> Option<nat> {
    if 'A' <= c && c <= 'Z' {
        Some(((c as int) - 65) as nat)
    } else if '2' <= c && c <= '7' {
        Some(((c as int) - 24) as nat)
    } else {
        None
    }
}

/// The number whose big-endian 5-bit groups are `vals`.
pub open spec fn b32_number(vals: Seq<nat>) -> nat
    decreases vals.len(),
{
    if vals.len() == 0 {
        0
    } else {
        b32_number(vals.drop_last()) * 32 + vals.last()
    }
}

/// The bytes of the bit string made of the 5-bit groups `vals`: byte `k` holds
/// bits `8k .. 8k+8`, and trailing bits that do not fill a byte are dropped.
pub open spec fn b32_bytes(vals: Seq<nat>) -> Seq<u8> {
    let n = vals.len();
    Seq::new(
        (5 * n / 8) as nat,
        |k: int| ((b32_number(vals) / p2((5 * n - 8 * k - 8) as nat)) % 256) as u8,
    )
}

/// `i` is the first position of a character outside the Base32 alphabet.
pub open spec fn is_first_invalid(cs: Seq<char>, i: int) -> bool {
    &&& 0 <= i < cs.len()
    &&& b32_value(cs[i]) is None
    &&& forall|j: int| 0 <= j < i ==> b32_value(cs[j]) is Some
}

/// The 5-bit values of a sequence of Base32 characters.
pub open spec fn b32_values(cs: Seq<char>) -> Seq<nat> {
    cs.map_values(|c: char| b32_value(c)->0)
}

/// Not the padding character.
pub open spec fn not_pad() -> spec_fn(char) -> bool {
    |c: char| c != '='
}

/// Base32 decoding errors.
#[derive(Debug, Clone, Copy, PartialEq, Eq, Structural)]
pub enum Base32Error {
    /// A character outside the alphabet (the first one).
    InvalidChar(char),
}

/// The result of decoding upper-case Base32 text: the padding `=` is ignored,
/// the first character outside the alphabet is an error, otherwise the bytes
/// of the bit string.
pub open spec fn b32_decode(upper: Seq<char>) -> Result<Seq<u8>, Base32Error> {
    let cs = upper.filter(not_pad());
    if exists|i: int| is_first_invalid(cs, i) {
        Err(Base32Error::InvalidChar(cs[choose|i: int| is_first_invalid(cs, i)]))
    } else {
        Ok(b32_bytes(b32_values(cs)))
    }
}

proof fn lemma_first_invalid(cs: Seq<char>, i: int)
    requires
        is_first_invalid(cs, i),
    ensures
        (choose|k: int| is_first_invalid(cs, k)) == i,
{
    let k = choose|k: int| is_first_invalid(cs, k);
    assert(is_first_invalid(cs, k));
    if k < i {
        assert(b32_value(cs[k]) is Some);
    }
    if i < k {
        assert(b32_value(cs[i]) is Some);
    }
}

/// `(x / a) % b == (x % (a * b)) / a`.
proof fn lemma_div_mod_split(x: nat, a: nat, b: nat)
    requires
        a > 0,
        b > 0,
    ensures
        (x / a) % b == (x % (a * b)) / a,
{
    lemma_breakdown(x as int, a as int, b as int);
    let q = (x / a) % b;
    let r = x % a;
    assert(0 <= r < a);
    lemma_div_multiples_vanish_fancy(q as int, r as int, a as int);
}

proof fn lemma_p2_small()
    ensures
        p2(5) == 32,
        p2(8) == 256,
        p2(16) == 65536,
{
    reveal_with_fuel(p2, 17);
}

/// `2^e` for small `e`.
fn p2_u64(e: u64) -> (r: u64)
    requires
        e <= 16,
    ensures
        r as nat == p2(e as nat),
        r >= 1,
{
    let mut r: u64 = 1;
    let mut i: u64 = 0;
    proof {
        lemma_p2_small();
    }
    while i < e
        invariant
            i <= e <= 16,
            r as nat == p2(i as nat),
            r >= 1,
            p2(16) == 65536,
        decreases e - i,
    {
        proof {
            lemma_p2_mono((i + 1) as nat, 16);
            assert(p2((i + 1) as nat) == 2 * p2(i as nat));
        }
        r = r * 2;
        i = i + 1;
    }
    r
}

fn b32_value_exec(c: char) -> (r: Option<u64>)
    ensures
        match b32_value(c) {
            Some(v) => r == Some(v as u64),
            None => r.is_none(),
        },
{
    if 'A' <= c && c <= 'Z' {
        Some((c as u64) - 65)
    } else if '2' <= c && c <= '7' {
        Some((c as u64) - 24)
    } else {
        None
    }
}

proof fn lemma_b32_step(vals: Seq<nat>, v: nat, bits: nat, bc: nat)
    requires
        v < 32,
        bits == b32_number(vals) % p2(bc),
    ensures
        b32_number(vals.push(v)) == b32_number(vals) * 32 + v,
        bits * 32 + v == b32_number(vals.push(v)) % p2(bc + 5),
        forall|e: nat|
            (b32_number(vals.push(v)) / #[trigger] p2(e + 5)) == b32_number(vals) / p2(e),
{
    let n = b32_number(vals);
    let m = n * 32 + v;
    assert(vals.push(v).drop_last() =~= vals);
    lemma_p2_add(bc, 5);
    lemma_p2_small();
    lemma_p2_pos(bc);
    lemma_breakdown(m as int, 32, p2(bc) as int);
    lemma_div_multiples_vanish_fancy(n as int, v as int, 32);
    assert(m == 32 * n + v);
    lemma_fundamental_div_mod(m as int, 32);
    assert(m % 32 == v) by {
        lemma_fundamental_div_mod(m as int, 32);
    }
    assert(p2(bc + 5) == 32 * p2(bc)) by (nonlinear_arith)
        requires
            p2(bc + 5) == p2(bc) * p2(5),
            p2(5) == 32,
    ;
    assert forall|e: nat| (m / #[trigger] p2(e + 5)) == n / p2(e) by {
        lemma_p2_add(e, 5);
        lemma_p2_pos(e);
        lemma_div_denominator(m as int, 32, p2(e) as int);
        assert(p2(e + 5) == 32 * p2(e)) by (nonlinear_arith)
            requires
                p2(e + 5) == p2(e) * p2(5),
                p2(5) == 32,
        ;
    }
}

/// Decodes upper-case Base32 text (see [`b32_decode`]).
pub fn base32_decode_upper(upper: &[char]) -> (r: Result<Vec<u8>, Base32Error>)
    ensures
        match (r, b32_decode(upper@)) {
            (Ok(bytes), Ok(spec_bytes)) => bytes@ == spec_bytes,
            (Err(e), Err(spec_e)) => e == spec_e,
            _ => false,
        },
{
    // Drop the padding.
    let mut cs: Vec<char> = Vec::new();
    let mut j: usize = 0;
    let n0 = upper.len();
    proof {
        reveal(Seq::filter);
    }
    assert(upper@.take(0) =~= Seq::<char>::empty());
    while j < n0
        invariant
            j <= n0,
            n0 == upper@.len(),
            cs@ == upper@.take(j as int).filter(not_pad()),
        decreases n0 - j,
    {
        assert(upper@.take(j + 1) =~= upper@.take(j as int).push(upper@[j as int]));
        proof {
            upper@.take(j as int).lemma_filter_push(upper@[j as int], not_pad());
        }
        if upper[j] != '=' {
            cs.push(upper[j]);
        }
        j = j + 1;
    }
    assert(upper@.take(n0 as int) =~= upper@);
    let ghost css = cs@;
    let n = cs.len();
    let mut out: Vec<u8> = Vec::new();
    let mut bits: u64 = 0;
    let mut bc: u64 = 0;
    let mut i: usize = 0;
    assert(b32_values(css.take(0)) =~= Seq::<nat>::empty());
    while i < n
        invariant
            n == css.len(),
            css == cs@,
            css == upper@.filter(not_pad()),
            i <= n,
            forall|j: int| 0 <= j < i ==> b32_value(css[j]) is Some,
            bc < 8,
            bc + 8 * out@.len() == 5 * i,
            bits < p2(bc as nat),
            bits == b32_number(b32_values(css.take(i as int))) % p2(bc as nat),
            forall|k: int|
                0 <= k < out@.len() ==> out@[k] == ((b32_number(b32_values(css.take(i as int)))
                    / p2((5 * i - 8 * k - 8) as nat)) % 256) as u8,
        decreases n - i,
    {
        let c = cs[i];
        let vo = b32_value_exec(c);
        if vo.is_none() {
            proof {
                assert(is_first_invalid(css, i as int));
                lemma_first_invalid(css, i as int);
            }
            return Err(Base32Error::InvalidChar(c));
        }
        let v = vo.unwrap();
        let ghost vals = b32_values(css.take(i as int));
        let ghost vals1 = b32_values(css.take(i + 1));
        assert(vals1 =~= vals.push(v as nat));
        proof {
            lemma_b32_step(vals, v as nat, bits as nat, bc as nat);
            lemma_p2_add(bc as nat, 5);
            lemma_p2_small();
        }
        let ghost m = b32_number(vals1);
        assert(bits * 32 + v < p2((bc + 5) as nat)) by (nonlinear_arith)
            requires
                bits < p2(bc as nat),
                v < 32,
                p2((bc + 5) as nat) == p2(bc as nat) * 32,
        ;
        let pmax = p2_u64(bc + 5);
        let bits1 = bits * 32 + v;
        let bc1 = bc + 5;
        let ghost out_old = out@;
        assert forall|k: int| 0 <= k < out_old.len() implies out_old[k] == ((m / p2(
            (5 * (i + 1) - 8 * k - 8) as nat,
        )) % 256) as u8 by {
            let e = (5 * i - 8 * k - 8) as nat;
            assert((5 * (i + 1) - 8 * k - 8) as nat == e + 5);
        }
        if bc1 >= 8 {
            let d = p2_u64(bc1 - 8);
            proof {
                lemma_p2_add((bc1 - 8) as nat, 8);
                lemma_p2_small();
                lemma_div_mod_split(m, d as nat, 256);
                assert(p2(bc1 as nat) == d as nat * 256) by (nonlinear_arith)
                    requires
                        p2(bc1 as nat) == p2((bc1 - 8) as nat) * p2(8),
                        p2(8) == 256,
                        d as nat == p2((bc1 - 8) as nat),
                ;
                lemma_mod_mod(m as int, d as int, 256);
            }
            let byte = bits1 / d;
            assert(byte < 256) by (nonlinear_arith)
                requires
                    bits1 < d * 256,
                    d > 0,
                    byte == bits1 / d,
            ;
            out.push(byte as u8);
            bits = bits1 % d;
            bc = bc1 - 8;
            assert((5 * (i + 1) - 8 * out_old.len() - 8) as nat == (bc1 - 8) as nat);
        } else {
            bits = bits1;
            bc = bc1;
        }
        i = i + 1;
        assert(forall|k: int| 0 <= k < out@.len() ==> out@[k] == ((b32_number(b32_values(css.take(i as int)))
                    / p2((5 * i - 8 * k - 8) as nat)) % 256) as u8);
    }
    proof {
        assert(css.take(n as int) =~= css);
        assert forall|k: int| !is_first_invalid(css, k) by {}
        assert(out@ =~= b32_bytes(b32_values(css)));
    }
    Ok(out)
}

/// Decodes Base32 text: the text is upper-cased (`str::to_uppercase`), then
/// decoded by [`base32_decode_upper`].
pub fn base32_decode(input: &str) -> (r: Result<Vec<u8>, Base32Error>)
    ensures
        match (r, b32_decode(crate::text::str_to_uppercase(input@))) {
            (Ok(bytes), Ok(spec_bytes)) => bytes@ == spec_bytes,
            (Err(e), Err(spec_e)) => e == spec_e,
            _ => false,
        },
{
    let chars = chars_of(input);
    let upper = to_uppercase_chars(&chars);
    base32_decode_upper(&upper)
}

/// Appends the bytes of `s` to `v`.
pub fn push_bytes(v: &mut Vec<u8>, s: &[u8])
    ensures
        final(v)@ == old(v)@ + s@,
{
    let mut i: usize = 0;
    let n = s.len();
    while i < n
        invariant
            i <= n,
            n == s@.len(),
            v@ == old(v)@ + s@.subrange(0, i as int),
        decreases n - i,
    {
        v.push(s[i]);
        i = i + 1;
        assert(v@ =~= old(v)@ + s@.subrange(0, i as int));
    }
    assert(s@.subrange(0, n as int) =~= s@);
}

/// The CALCULATE ALL command with a timestep challenge:
/// `00 A4 00 01 0A 74 08` and the eight challenge bytes.
pub open spec fn calculate_all_apdu(timestep: Seq<u8>) -> Seq<u8> {
    seq![0x00u8, 0xA4, 0x00, 0x01, 10, TAG_CHALLENGE, 8] + timestep
}

/// Builds the CALCULATE ALL command for a timestep.
pub fn build_calculate_all_apdu(timestep: [u8; 8]) -> (r: Vec<u8>)
    ensures
        r@ == calculate_all_apdu(timestep@),
{
    let mut apdu: Vec<u8> = Vec::new();
    apdu.push(0x00);
    apdu.push(0xA4);
    apdu.push(0x00);
    apdu.push(0x01);
    apdu.push(10);
    apdu.push(TAG_CHALLENGE);
    apdu.push(8);
    push_bytes(&mut apdu, timestep.as_slice());
    assert(apdu@ =~= calculate_all_apdu(timestep@));
    apdu
}

/// The type/algorithm byte of a PUT command (type in the high nibble,
/// algorithm in the low one).
pub open spec fn type_algo_byte(t: OathType, a: OathAlgorithm) -> u8 {
    match (t, a) {
        (OathType::Totp, OathAlgorithm::Sha1) => 0x21,
        (OathType::Totp, OathAlgorithm::Sha256) => 0x22,
        (OathType::Totp, OathAlgorithm::Sha512) => 0x23,
        (OathType::Hotp, OathAlgorithm::Sha1) => 0x31,
        (OathType::Hotp, OathAlgorithm::Sha256) => 0x32,
        (OathType::Hotp, OathAlgorithm::Sha512) => 0x33,
    }
}

/// A length written into one byte (`as u8`: the low eight bits).
pub open spec fn len_byte(n: int) -> u8 {
    (n % 256) as u8
}

/// The PUT command: header `00 01 00 00`, the data length, the name TLV
/// (`71`, length, name bytes) and the key TLV (`73`, length, type/algorithm
/// byte, digits, secret).
pub open spec fn put_apdu(
    name: Seq<u8>,
    secret: Seq<u8>,
    t: OathType,
    a: OathAlgorithm,
    digits: u8,
) -> Seq<u8> {
    let name_tlv = seq![TAG_NAME, len_byte(name.len() as int)] + name;
    let key_tlv = seq![TAG_KEY, len_byte(2 + secret.len() as int), type_algo_byte(t, a), digits] + secret;
    seq![0x00u8, 0x01, 0x00, 0x00, len_byte(name_tlv.len() + key_tlv.len() as int)] + name_tlv + key_tlv
}

fn len_byte_exec(n: usize) -> (b: u8)
    ensures
        b == len_byte(n as int),
{
    (n % 256) as u8
}

/// Builds the PUT command that stores a credential.
pub fn build_put_apdu(
    name: &str,
    secret: &[u8],
    oath_type: OathType,
    algorithm: OathAlgorithm,
    digits: u8,
) -> (r: Vec<u8>)
    requires
        name.spec_bytes().len() + secret@.len() + 6 <= usize::MAX,
    ensures
        r@ == put_apdu(name.spec_bytes(), secret@, oath_type, algorithm, digits),
{
    let name_bytes = name.as_bytes();
    let nlen = name_bytes.len();
    let slen = secret.len();
    let type_algo: u8 = match (oath_type, algorithm) {
        (OathType::Totp, OathAlgorithm::Sha1) => 0x21,
        (OathType::Totp, OathAlgorithm::Sha256) => 0x22,
        (OathType::Totp, OathAlgorithm::Sha512) => 0x23,
        (OathType::Hotp, OathAlgorithm::Sha1) => 0x31,
        (OathType::Hotp, OathAlgorithm::Sha256) => 0x32,
        (OathType::Hotp, OathAlgorithm::Sha512) => 0x33,
    };
    let mut apdu: Vec<u8> = Vec::new();
    apdu.push(0x00);
    apdu.push(0x01);
    apdu.push(0x00);
    apdu.push(0x00);
    apdu.push(len_byte_exec(nlen + 2 + slen + 4));
    apdu.push(TAG_NAME);
    apdu.push(len_byte_exec(nlen));
    push_bytes(&mut apdu, name_bytes);
    apdu.push(TAG_KEY);
    apdu.push(len_byte_exec(2 + slen));
    apdu.push(type_algo);
    apdu.push(digits);
    push_bytes(&mut apdu, secret);
    assert(apdu@ =~= put_apdu(name.spec_bytes(), secret@, oath_type, algorithm, digits));
    apdu
}

/// The DELETE command: `00 02 00 00`, the data length, then the name TLV.
pub open spec fn delete_apdu(name: Seq<u8>) -> Seq<u8> {
    seq![0x00u8, 0x02, 0x00, 0x00, len_byte(2 + name.len() as int), TAG_NAME, len_byte(name.len() as int)]
        + name
}

/// Builds the DELETE command for a credential.
pub fn build_delete_apdu(name: &str) -> (r: Vec<u8>)
    requires
        name.spec_bytes().len() + 2 <= usize::MAX,
    ensures
        r@ == delete_apdu(name.spec_bytes()),
{
    let name_bytes = name.as_bytes();
    let nlen = name_bytes.len();
    let mut apdu: Vec<u8> = Vec::new();
    apdu.push(0x00);
    apdu.push(0x02);
    apdu.push(0x00);
    apdu.push(0x00);
    apdu.push(len_byte_exec(2 + nlen));
    apdu.push(TAG_NAME);
    apdu.push(len_byte_exec(nlen));
    push_bytes(&mut apdu, name_bytes);
    assert(apdu@ =~= delete_apdu(name.spec_bytes()));
    apdu
}

/// The TOTP timestep of a Unix time: the time divided by 30 with Rust's
/// truncating division, read as an unsigned 64-bit number (a negative
/// quotient wraps around).
pub open spec fn timestep_value(unix_secs: int) -> nat {
    if unix_secs >= 0 {
        (unix_secs / 30) as nat
    } else {
        let q = (-unix_secs) / 30;
        if q == 0 {
            0
        } else {
            (0x1_0000_0000_0000_0000 - q) as nat
        }
    }
}

/// The eight big-endian bytes of `t`.
pub open spec fn be_bytes8(t: nat) -> Seq<u8> {
    seq![
        ((t / 0x100_0000_0000_0000) % 256) as u8,
        ((t / 0x1_0000_0000_0000) % 256) as u8,
        ((t / 0x100_0000_0000) % 256) as u8,
        ((t / 0x1_0000_0000) % 256) as u8,
        ((t / 0x100_0000) % 256) as u8,
        ((t / 0x1_0000) % 256) as u8,
        ((t / 0x100) % 256) as u8,
        (t % 256) as u8,
    ]
}

/// The TOTP timestep challenge of a Unix time, as big-endian bytes.
pub fn calculate_timestep(unix_secs: i64) -> (r: [u8; 8])
    ensures
        r@ == be_bytes8(timestep_value(unix_secs as int)),
{
    let t: u64 = if unix_secs >= 0 {
        (unix_secs as u64) / 30
    } else {
        let magnitude: u64 = ((-(unix_secs + 1)) as u64) + 1;
        let q = magnitude / 30;
        0u64.wrapping_sub(q)
    };
    assert(t as nat == timestep_value(unix_secs as int));
    let r = [
        ((t / 0x100_0000_0000_0000) % 256) as u8,
        ((t / 0x1_0000_0000_0000) % 256) as u8,
        ((t / 0x100_0000_0000) % 256) as u8,
        ((t / 0x1_0000_0000) % 256) as u8,
        ((t / 0x100_0000) % 256) as u8,
        ((t / 0x1_0000) % 256) as u8,
        ((t / 0x100) % 256) as u8,
        (t % 256) as u8,
    ];
    assert(r@ =~= be_bytes8(t as nat));
    r
}

/// Every listed credential has 6 digits.
pub proof fn lemma_listed_digits(items: Seq<(u8, Seq<u8>)>)
    ensures
        forall|j: int| 0 <= j < listed_credentials(items).len() ==> (#[trigger] listed_credentials(items)[j]).digits == 6,
    decreases items.len(),
{
    if items.len() > 0 {
        lemma_listed_digits(items.drop_last());
    }
}

/// The type/algorithm byte that PUT writes reads back, through the nibbles that
/// LIST decodes, as the same type and algorithm.
pub proof fn lemma_type_algo_roundtrip(t: OathType, a: OathAlgorithm)
    ensures
        type_of_byte(type_algo_byte(t, a)) == t,
        algorithm_of_byte(type_algo_byte(t, a)) == a,
{
    assert(0x21u8 & 0x10 == 0 && 0x21u8 & 0x0f == 0x01) by (bit_vector);
    assert(0x22u8 & 0x10 == 0 && 0x22u8 & 0x0f == 0x02) by (bit_vector);
    assert(0x23u8 & 0x10 == 0 && 0x23u8 & 0x0f == 0x03) by (bit_vector);
    assert(0x31u8 & 0x10 != 0 && 0x31u8 & 0x0f == 0x01) by (bit_vector);
    assert(0x32u8 & 0x10 != 0 && 0x32u8 & 0x0f == 0x02) by (bit_vector);
    assert(0x33u8 & 0x10 != 0 && 0x33u8 & 0x0f == 0x03) by (bit_vector);
}

/// The data of a PUT command, read as a TLV stream, is the name item and then
/// the key item (type/algorithm byte, digits, secret), for a name and a key
/// item that each fit in a one-byte length below `0x81`.
pub proof fn lemma_put_data_items(
    name: Seq<u8>,
    secret: Seq<u8>,
    t: OathType,
    a: OathAlgorithm,
    digits: u8,
)
    requires
        name.len() < 0x81,
        secret.len() + 2 < 0x81,
    ensures
        tlv_items(put_apdu(name, secret, t, a, digits).skip(5)) == seq![
            (TAG_NAME, name),
            (TAG_KEY, seq![type_algo_byte(t, a), digits] + secret),
        ],
{
    let key = seq![type_algo_byte(t, a), digits] + secret;
    let name_tlv = seq![TAG_NAME, len_byte(name.len() as int)] + name;
    let key_tlv = seq![TAG_KEY, len_byte(2 + secret.len() as int)] + key;
    let d = put_apdu(name, secret, t, a, digits).skip(5);
    assert(len_byte(name.len() as int) == name.len());
    assert(len_byte(2 + secret.len() as int) == 2 + secret.len());
    assert(d =~= name_tlv + key_tlv);
    assert(d.subrange(2, 2 + name.len() as int) =~= name);
    assert(d.subrange(2 + name.len() as int, d.len() as int) =~= key_tlv);
    assert(key_tlv.subrange(2, key_tlv.len() as int) =~= key);
    assert(key_tlv.subrange(key_tlv.len() as int, key_tlv.len() as int) =~= Seq::<u8>::empty());
    assert(tlv_items(Seq::<u8>::empty()) =~= Seq::<(u8, Seq<u8>)>::empty());
    assert(tlv_items(key_tlv) =~= seq![(TAG_KEY, key)]);
    assert(tlv_items(d) =~= seq![(TAG_NAME, name)] + tlv_items(key_tlv));
}

/// LIST of the OATH applet.
pub open spec fn list_apdu() -> Seq<u8> {
    seq![0x00u8, 0xA1, 0x00, 0x00]
}

/// Why reading the OATH applet failed.
#[derive(Debug, Clone, Copy, PartialEq, Eq, Structural)]
pub enum OathReadError {
    /// SELECT was answered with this status.
    SelectFailed(u16),
    /// LIST was answered with this status.
    ListFailed(u16),
    /// The read had already ended.
    SessionOver,
}

/// The response an OATH read waits for.
#[derive(Debug, Clone, Copy, PartialEq, Eq, Structural)]
pub enum OathReadStage {
    AwaitSelect,
    AwaitList,
    AwaitCalculate,
    Over,
}

/// Reading the OATH applet: SELECT, LIST, then CALCULATE ALL for the codes.
/// The caller transmits each APDU and hands back the response.
pub struct OathReadSession {
    pub stage: OathReadStage,
    pub timestep: [u8; 8],
    pub credentials: Vec<OathCredential>,
}

/// What the caller does next.
#[derive(Debug)]
pub enum OathReadStep {
    Transmit(Vec<u8>),
    Done(OathState),
    Failed(OathReadError),
}

/// The mathematical value of an [`OathReadStep`]: the state as its credential
/// views and the password flag.
pub enum OathReadStepView {
    Transmit(Seq<u8>),
    Done(Seq<OathCredentialView>, bool),
    Failed(OathReadError),
}

impl View for OathReadStep {
    type V = OathReadStepView;

    open spec fn view(&self) -> OathReadStepView {
        match self {
            OathReadStep::Transmit(a) => OathReadStepView::Transmit(a@),
            OathReadStep::Done(s) => OathReadStepView::Done(cred_views(s.credentials@), s.password_required),
            OathReadStep::Failed(e) => OathReadStepView::Failed(*e),
        }
    }
}

/// The next stage, credentials and step of a read that receives `resp`.
pub open spec fn oath_read_next(
    stage: OathReadStage,
    timestep: Seq<u8>,
    creds: Seq<OathCredentialView>,
    resp: Seq<u8>,
) -> (OathReadStage, Seq<OathCredentialView>, OathReadStepView) {
    let sw = crate::model::card::status_word(resp);
    let body = resp.subrange(0, resp.len() - 2);
    match stage {
        OathReadStage::AwaitSelect => if sw == 0x6982 {
            (OathReadStage::Over, creds, OathReadStepView::Done(Seq::empty(), true))
        } else if sw != 0x9000 {
            (OathReadStage::Over, creds, OathReadStepView::Failed(OathReadError::SelectFailed(sw)))
        } else {
            (OathReadStage::AwaitList, creds, OathReadStepView::Transmit(list_apdu()))
        },
        OathReadStage::AwaitList => if sw != 0x9000 {
            (OathReadStage::Over, creds, OathReadStepView::Failed(OathReadError::ListFailed(sw)))
        } else {
            let listed = listed_credentials(tlv_items(body));
            (OathReadStage::AwaitCalculate, listed, OathReadStepView::Transmit(calculate_all_apdu(timestep)))
        },
        OathReadStage::AwaitCalculate => {
            let coded = if sw == 0x9000 {
                apply_codes(tlv_items(body), creds, None)
            } else {
                creds
            };
            (OathReadStage::Over, Seq::empty(), OathReadStepView::Done(coded, false))
        },
        OathReadStage::Over => (OathReadStage::Over, creds, OathReadStepView::Failed(OathReadError::SessionOver)),
    }
}

/// The OATH read's invariant: codes can be computed for every credential.
pub open spec fn oath_read_ok(s: OathReadSession) -> bool {
    forall|j: int| 0 <= j < s.credentials@.len() ==> (#[trigger] s.credentials@[j]).digits <= 9
}

impl OathReadSession {
    /// A read that asks for codes at `timestep`; transmit the returned SELECT
    /// first.
    pub fn start(timestep: [u8; 8]) -> (r: (Self, Vec<u8>))
        ensures
            r.0.stage == OathReadStage::AwaitSelect,
            r.0.timestep == timestep,
            r.0.credentials@.len() == 0,
            oath_read_ok(r.0),
            r.1@ == crate::model::card::select_oath_apdu(),
    {
        (
            OathReadSession { stage: OathReadStage::AwaitSelect, timestep, credentials: Vec::new() },
            crate::model::card::select_apdu(crate::model::card::Applet::Oath),
        )
    }

    /// Takes the card's response to the last APDU and says what to do next (see
    /// [`oath_read_next`]): a password-protected applet gives an empty state that
    /// says so.
    pub fn step(&mut self, resp: &[u8]) -> (r: OathReadStep)
        requires
            oath_read_ok(*old(self)),
        ensures
            oath_read_ok(*final(self)),
            final(self).timestep == old(self).timestep,
            (final(self).stage, cred_views(final(self).credentials@), r@) == oath_read_next(
                old(self).stage,
                old(self).timestep@,
                cred_views(old(self).credentials@),
                resp@,
            ),
    {
        let sw = crate::model::card::apdu_sw(resp);
        match self.stage {
            OathReadStage::AwaitSelect => {
                self.stage = OathReadStage::Over;
                if sw == 0x6982 {
                    let s = OathState { credentials: Vec::new(), password_required: true };
                    assert(cred_views(s.credentials@) =~= Seq::<OathCredentialView>::empty());
                    OathReadStep::Done(s)
                } else if sw != 0x9000 {
                    OathReadStep::Failed(OathReadError::SelectFailed(sw))
                } else {
                    self.stage = OathReadStage::AwaitList;
                    let a = vec![0x00u8, 0xA1, 0x00, 0x00];
                    assert(a@ =~= list_apdu());
                    OathReadStep::Transmit(a)
                }
            },
            OathReadStage::AwaitList => {
                if sw != 0x9000 {
                    self.stage = OathReadStage::Over;
                    OathReadStep::Failed(OathReadError::ListFailed(sw))
                } else {
                    let body = crate::model::card::response_data(resp);
                    let listed = parse_list_response(&body);
                    proof {
                        lemma_listed_digits(tlv_items(body@));
                        assert forall|j: int| 0 <= j < listed@.len() implies (#[trigger] listed@[j]).digits
                            <= 9 by {
                            assert(cred_views(listed@)[j] == listed@[j]@);
                        }
                    }
                    self.credentials = listed;
                    self.stage = OathReadStage::AwaitCalculate;
                    OathReadStep::Transmit(build_calculate_all_apdu(self.timestep))
                }
            },
            OathReadStage::AwaitCalculate => {
                let mut creds = Vec::new();
                std::mem::swap(&mut creds, &mut self.credentials);
                if sw == 0x9000 {
                    let body = crate::model::card::response_data(resp);
                    parse_calculate_all_response(&body, &mut creds);
                }
                self.stage = OathReadStage::Over;
                assert(cred_views(self.credentials@) =~= Seq::<OathCredentialView>::empty());
                OathReadStep::Done(OathState { credentials: creds, password_required: false })
            },
            OathReadStage::Over => OathReadStep::Failed(OathReadError::SessionOver),
        }
    }
}

} // verus!
