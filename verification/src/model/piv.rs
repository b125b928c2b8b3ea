//! PIV applet: slot state, response decoding and `ykman piv info` parsing.
use vstd::prelude::*;
use vstd::string::*;
use crate::model::card::{apdu_sw, response_data, status_word};
use crate::model::oath::sub_bytes;
use crate::model::otp::opt_str;
use x509_parser::prelude::FromDer;
use crate::text::{
    chars_eq, chars_of, find_char, is_literal, first_index, lines, lines_of, starts_with, starts_with_chars,
    string_from_chars, subvec, trim, trim_chars, views,
};

verus! {

/// The PIV slots that hold something.
#[derive(Debug)]
pub struct PivState {
    pub slots: Vec<SlotInfo>,
}

/// One occupied PIV slot and what its certificate says.
#[derive(Debug)]
pub struct SlotInfo {
    pub slot: String,
    /// Short algorithm name, such as `RSA-SHA256` or `ECDSA-P256`.
    pub algorithm: Option<String>,
    /// Subject common name of the certificate.
    pub subject: Option<String>,
    /// Issuer common name of the certificate.
    pub issuer: Option<String>,
    /// Validity window, `YYYY-MM-DD – YYYY-MM-DD`.
    pub validity: Option<String>,
}

/// The mathematical value of a [`SlotInfo`].
pub struct SlotInfoView {
    pub slot: Seq<char>,
    pub algorithm: Option<Seq<char>>,
    pub subject: Option<Seq<char>>,
    pub issuer: Option<Seq<char>>,
    pub validity: Option<Seq<char>>,
}

impl View for SlotInfo {
    type V = SlotInfoView;

    open spec fn view(&self) -> SlotInfoView {
        SlotInfoView {
            slot: self.slot@,
            algorithm: opt_str(self.algorithm),
            subject: opt_str(self.subject),
            issuer: opt_str(self.issuer),
            validity: opt_str(self.validity),
        }
    }
}

/// The views of a sequence of slots.
pub open spec fn slot_views(s: Seq<SlotInfo>) -> Seq<SlotInfoView> {
    s.map_values(|i: SlotInfo| i@)
}

/// An occupied slot with nothing known of its certificate.
pub open spec fn occupied_view(slot: Seq<char>) -> SlotInfoView {
    SlotInfoView { slot, algorithm: None, subject: None, issuer: None, validity: None }
}

impl SlotInfo {
    /// An occupied slot with nothing known of its certificate.
    pub fn occupied(slot: &str) -> (s: Self)
        ensures
            s@ == occupied_view(slot@),
    {
        SlotInfo {
            slot: slot.to_owned(),
            algorithm: None,
            subject: None,
            issuer: None,
            validity: None,
        }
    }
}

/// `s` with every leading copy of `p` removed (`str::trim_start_matches`).
pub open spec fn strip_prefixes(s: Seq<char>, p: Seq<char>) -> Seq<char>
    decreases s.len(),
{
    if p.len() > 0 && starts_with(s, p) {
        strip_prefixes(s.skip(p.len() as int), p)
    } else {
        s
    }
}

/// The text before the first colon (all of it when there is none).
pub open spec fn before_colon(t: Seq<char>) -> Seq<char> {
    match first_index(t, ':') {
        Some(i) => t.take(i),
        None => t,
    }
}

/// The slot a line of `ykman piv info` names: a trimmed line that starts with
/// `Slot ` names the text before its colon, without the leading `Slot ` words.
pub open spec fn piv_slot_name(line: Seq<char>) -> Option<Seq<char>> {
    let t = trim(line);
    if starts_with(t, "Slot "@) {
        Some(strip_prefixes(before_colon(t), "Slot "@))
    } else {
        None
    }
}

/// The slots that a sequence of lines names, in order.
pub open spec fn piv_slot_names(ls: Seq<Seq<char>>) -> Seq<Seq<char>>
    decreases ls.len(),
{
    if ls.len() == 0 {
        Seq::empty()
    } else {
        let r = piv_slot_names(ls.drop_last());
        match piv_slot_name(ls.last()) {
            Some(n) => r.push(n),
            None => r,
        }
    }
}

/// `str::trim_start_matches` with a string pattern (see [`strip_prefixes`]).
pub fn strip_prefixes_pub(s: &[char], p: &[char]) -> (r: Vec<char>)
    ensures
        r@ == strip_prefixes(s@, p@),
{
    strip_prefixes_chars(s, p)
}

fn strip_prefixes_chars(s: &[char], p: &[char]) -> (r: Vec<char>)
    ensures
        r@ == strip_prefixes(s@, p@),
{
    let mut rest = subvec(s, 0, s.len());
    assert(s@.subrange(0, s@.len() as int) =~= s@);
    if p.len() == 0 {
        return rest;
    }
    while starts_with_chars(&rest, p)
        invariant
            p@.len() > 0,
            strip_prefixes(rest@, p@) == strip_prefixes(s@, p@),
        decreases rest@.len(),
    {
        let n = rest.len();
        let next = subvec(&rest, p.len(), n);
        assert(next@ =~= rest@.skip(p@.len() as int));
        rest = next;
    }
    rest
}

/// Parses the slots of `ykman piv info` output (see [`piv_slot_names`]).
pub fn parse_piv_info(output: &str) -> (state: PivState)
    ensures
        slot_views(state.slots@) == piv_slot_names(lines(output@)).map_values(
            |n: Seq<char>| occupied_view(n),
        ),
{
    let all = chars_of(output);
    let ls = lines_of(&all);
    let ghost lv = views(ls@);
    let prefix = chars_of("Slot ");
    let mut slots: Vec<SlotInfo> = Vec::new();
    let n = ls.len();
    let mut i: usize = 0;
    while i < n
        invariant
            n == lv.len(),
            i <= n,
            lv == views(ls@),
            prefix@ == "Slot "@,
            slot_views(slots@) == piv_slot_names(lv.take(i as int)).map_values(
                |n: Seq<char>| occupied_view(n),
            ),
        decreases n - i,
    {
        assert(lv.take(i + 1).drop_last() =~= lv.take(i as int));
        assert(lv[i as int] == ls[i as int]@);
        let t = trim_chars(&ls[i]);
        if starts_with_chars(&t, &prefix) {
            let head = match find_char(&t, ':') {
                Some(k) => subvec(&t, 0, k),
                None => subvec(&t, 0, t.len()),
            };
            assert(head@ == before_colon(t@)) by {
                assert(t@.subrange(0, t@.len() as int) =~= t@);
            }
            let name = strip_prefixes_chars(&head, &prefix);
            let info = SlotInfo {
                slot: string_from_chars(&name),
                algorithm: None,
                subject: None,
                issuer: None,
                validity: None,
            };
            let ghost before = slot_views(slots@);
            slots.push(info);
            assert(slot_views(slots@) =~= before.push(occupied_view(name@)));
        }
        i = i + 1;
    }
    assert(lv.take(n as int) =~= lv);
    PivState { slots }
}

/// A PIV GET DATA response with status 0x9000 means the slot holds an object.
pub fn parse_piv_slot_presence(resp: &[u8]) -> (b: bool)
    ensures
        b == (status_word(resp@) == 0x9000),
{
    apdu_sw(resp) == 0x9000
}

/// Where the walk over a flat BER-TLV stream finds the value of `tag`: a tag,
/// a short length or 0x81..0x84 and that many length octets, and a value. The
/// walk stops at a missing or bad length and at a value that runs past the data.
pub open spec fn tlv_find(d: Seq<u8>, i: int, tag: u8) -> Option<Seq<u8>>
    decreases d.len() - i,
{
    if i < 0 || i + 1 >= d.len() {
        None
    } else {
        let b = d[i + 1];
        let num = b - 128;
        if b >= 128 && (num == 0 || num > 4 || i + 2 + num > d.len()) {
            None
        } else {
            let start = if b < 128 {
                i + 2
            } else {
                i + 2 + num
            };
            let len: int = if b < 128 {
                b as int
            } else {
                be_value(d.subrange(i + 2, i + 2 + num)) as int
            };
            if start + len > d.len() {
                None
            } else if d[i] == tag {
                Some(d.subrange(start, start + len))
            } else {
                tlv_find(d, start + len, tag)
            }
        }
    }
}

/// The big-endian value of some bytes.
pub open spec fn be_value(b: Seq<u8>) -> nat
    decreases b.len(),
{
    if b.len() == 0 {
        0
    } else {
        be_value(b.drop_last()) * 256 + b.last() as nat
    }
}

proof fn lemma_be_value_bound(b: Seq<u8>)
    ensures
        b.len() <= 4 ==> be_value(b) < 0x1_0000_0000,
        b.len() <= 3 ==> be_value(b) < 0x100_0000,
        b.len() <= 2 ==> be_value(b) < 0x1_0000,
        b.len() <= 1 ==> be_value(b) < 0x100,
    decreases b.len(),
{
    if b.len() > 0 {
        lemma_be_value_bound(b.drop_last());
    }
}

/// The value of the first top-level TLV item with `tag` (see [`tlv_find`]).
pub fn extract_tlv_value(data: &[u8], tag: u8) -> (r: Option<Vec<u8>>)
    ensures
        match r {
            Some(v) => tlv_find(data@, 0, tag) == Some(v@),
            None => tlv_find(data@, 0, tag).is_none(),
        },
{
    let n = data.len();
    let mut i: usize = 0;
    while n > 0 && i < n - 1
        invariant
            n == data@.len(),
            i <= n,
            tlv_find(data@, 0, tag) == tlv_find(data@, i as int, tag),
        decreases n - i,
    {
        let t = data[i];
        let b = data[i + 1];
        let start: usize;
        let len: usize;
        if b < 0x80 {
            start = i + 2;
            len = b as usize;
        } else {
            let num = (b - 0x80) as usize;
            if num == 0 || num > 4 || num > n - (i + 2) {
                return None;
            }
            let mut l: u64 = 0;
            let mut k: usize = 0;
            while k < num
                invariant
                    n == data@.len(),
                    i + 2 + num <= n,
                    1 <= num <= 4,
                    k <= num,
                    l == be_value(data@.subrange(i + 2, i + 2 + k)),
                decreases num - k,
            {
                let ghost pre = data@.subrange(i + 2, i + 2 + k);
                assert(data@.subrange(i + 2, i + 2 + k + 1).drop_last() =~= pre);
                proof {
                    lemma_be_value_bound(pre);
                }
                l = l * 256 + data[i + 2 + k] as u64;
                k = k + 1;
            }
            proof {
                lemma_be_value_bound(data@.subrange(i + 2, i + 2 + num));
            }
            if l > (n - (i + 2 + num)) as u64 {
                return None;
            }
            start = i + 2 + num;
            len = l as usize;
        }
        if len > n - start {
            return None;
        }
        if t == tag {
            return Some(sub_bytes(data, start, start + len));
        }
        i = start + len;
    }
    None
}

/// An X.509 distinguished name as the slot view reads it.
pub struct DnFields {
    /// Each attribute in order: its OID in dotted form, and its value where the
    /// value is a string type.
    pub attributes: Vec<(String, Option<String>)>,
    /// The RFC 4514 text of the whole name.
    pub text: String,
}

/// The mathematical value of a [`DnFields`].
pub struct DnView {
    pub attributes: Seq<(Seq<char>, Option<Seq<char>>)>,
    pub text: Seq<char>,
}

impl View for DnFields {
    type V = DnView;

    open spec fn view(&self) -> DnView {
        DnView {
            attributes: self.attributes@.map_values(
                |a: (String, Option<String>)| (a.0@, opt_str(a.1)),
            ),
            text: self.text@,
        }
    }
}

/// The parts of an X.509 certificate that the slot view shows, other than names.
pub struct CertFields {
    /// OID of the signature algorithm, dotted.
    pub signature_oid: String,
    /// OID of the subject public key algorithm, dotted.
    pub key_oid: String,
    /// First day of validity, `YYYY-MM-DD`.
    pub not_before: String,
    /// Last day of validity, `YYYY-MM-DD`.
    pub not_after: String,
}

/// The mathematical value of a [`CertFields`].
pub struct CertView {
    pub signature_oid: Seq<char>,
    pub key_oid: Seq<char>,
    pub not_before: Seq<char>,
    pub not_after: Seq<char>,
}

impl View for CertFields {
    type V = CertView;

    open spec fn view(&self) -> CertView {
        CertView {
            signature_oid: self.signature_oid@,
            key_oid: self.key_oid@,
            not_before: self.not_before@,
            not_after: self.not_after@,
        }
    }
}

/// What x509-parser reads from DER bytes: the OIDs and validity dates, or
/// nothing where the bytes are no certificate.
pub uninterp spec fn x509_cert_fields(der: Seq<u8>) -> Option<CertView>;

/// What x509-parser reads from DER bytes: the subject and issuer names.
pub uninterp spec fn x509_cert_names(der: Seq<u8>) -> Option<(DnView, DnView)>;

/// `X509Certificate::from_der`, then the dotted signature and key algorithm OIDs
/// and the validity dates (`time::Date` display). The result is named: the
/// contract ties it to the bytes and says nothing of DER itself.
#[verifier::external_body]
fn parse_x509_fields(der: &[u8]) -> (r: Option<CertFields>)
    ensures
        match r {
            Some(f) => x509_cert_fields(der@) == Some(f@),
            None => x509_cert_fields(der@).is_none(),
        },
{
    let (_, c) = x509_parser::certificate::X509Certificate::from_der(der).ok()?;
    let v = c.validity();
    Some(CertFields {
        signature_oid: c.signature_algorithm.algorithm.to_id_string(),
        key_oid: c.tbs_certificate.subject_pki.algorithm.algorithm.to_id_string(),
        not_before: v.not_before.to_datetime().date().to_string(),
        not_after: v.not_after.to_datetime().date().to_string(),
    })
}

/// `X509Certificate::from_der`, then each attribute of the subject and issuer
/// names (dotted OID, and `as_str` of the value where that succeeds) and each
/// name's display text. The result is named, like [`parse_x509_fields`].
#[verifier::external_body]
fn parse_x509_names(der: &[u8]) -> (r: Option<(DnFields, DnFields)>)
    ensures
        match r {
            Some((s, i)) => x509_cert_names(der@) == Some((s@, i@)),
            None => x509_cert_names(der@).is_none(),
        },
{
    let (_, c) = x509_parser::certificate::X509Certificate::from_der(der).ok()?;
    let dn = |n: &x509_parser::x509::X509Name| DnFields {
        attributes: n.iter_attributes().map(|a| (a.attr_type().to_id_string(), a.attr_value().as_str().ok().map(String::from))).collect(),
        text: n.to_string(),
    };
    Some((dn(c.subject()), dn(c.issuer())))
}

/// `oid_registry::OID_X509_COMMON_NAME` in dotted form, which the registry
/// defines as 2.5.4.3.
#[verifier::external_body]
fn common_name_oid() -> (s: String)
    ensures
        s@ == "2.5.4.3"@,
{
    oid_registry::OID_X509_COMMON_NAME.to_id_string()
}

/// The short name of a well-known signature or key algorithm OID.
pub open spec fn oid_name(oid: Seq<char>) -> Option<Seq<char>> {
    if oid == "1.2.840.113549.1.1.1"@ {
        Some("RSA"@)
    } else if oid == "1.2.840.113549.1.1.11"@ {
        Some("RSA-SHA256"@)
    } else if oid == "1.2.840.113549.1.1.12"@ {
        Some("RSA-SHA384"@)
    } else if oid == "1.2.840.113549.1.1.13"@ {
        Some("RSA-SHA512"@)
    } else if oid == "1.2.840.10045.4.3.2"@ {
        Some("ECDSA-P256"@)
    } else if oid == "1.2.840.10045.4.3.3"@ {
        Some("ECDSA-P384"@)
    } else if oid == "1.2.840.10045.2.1"@ {
        Some("EC"@)
    } else if oid == "1.3.101.112"@ {
        Some("Ed25519"@)
    } else if oid == "1.3.101.113"@ {
        Some("Ed448"@)
    } else {
        None
    }
}

/// The view of an optional string slice.
pub open spec fn opt_static(o: Option<&'static str>) -> Option<Seq<char>> {
    match o {
        Some(s) => Some(s@),
        None => None,
    }
}

/// The short name of a well-known algorithm OID (see [`oid_name`]).
pub fn oid_to_algorithm_name(oid: &str) -> (r: Option<&'static str>)
    ensures
        opt_static(r) == oid_name(oid@),
{
    let v = chars_of(oid);
    if is_literal(&v, "1.2.840.113549.1.1.1") {
        Some("RSA")
    } else if is_literal(&v, "1.2.840.113549.1.1.11") {
        Some("RSA-SHA256")
    } else if is_literal(&v, "1.2.840.113549.1.1.12") {
        Some("RSA-SHA384")
    } else if is_literal(&v, "1.2.840.113549.1.1.13") {
        Some("RSA-SHA512")
    } else if is_literal(&v, "1.2.840.10045.4.3.2") {
        Some("ECDSA-P256")
    } else if is_literal(&v, "1.2.840.10045.4.3.3") {
        Some("ECDSA-P384")
    } else if is_literal(&v, "1.2.840.10045.2.1") {
        Some("EC")
    } else if is_literal(&v, "1.3.101.112") {
        Some("Ed25519")
    } else if is_literal(&v, "1.3.101.113") {
        Some("Ed448")
    } else {
        None
    }
}

/// The value of the first common-name attribute whose value is a string.
pub open spec fn first_cn(attrs: Seq<(Seq<char>, Option<Seq<char>>)>) -> Option<Seq<char>>
    decreases attrs.len(),
{
    if attrs.len() == 0 {
        None
    } else if attrs[0].0 == "2.5.4.3"@ && attrs[0].1 is Some {
        attrs[0].1
    } else {
        first_cn(attrs.skip(1))
    }
}

/// The name shown for a distinguished name: its first string common name, else
/// its whole text when that is not empty.
pub open spec fn dn_display(dn: DnView) -> Option<Seq<char>> {
    match first_cn(dn.attributes) {
        Some(cn) => Some(cn),
        None => if dn.text.len() == 0 {
            None
        } else {
            Some(dn.text)
        },
    }
}

/// The name shown for a distinguished name (see [`dn_display`]).
pub fn dn_common_name(dn: &DnFields) -> (r: Option<String>)
    ensures
        opt_str(r) == dn_display(dn@),
{
    let cn = common_name_oid();
    let ghost attrs = dn@.attributes;
    let n = dn.attributes.len();
    let mut i: usize = 0;
    assert(attrs.skip(0) =~= attrs);
    while i < n
        invariant
            n == attrs.len(),
            i <= n,
            attrs == dn@.attributes,
            cn@ == "2.5.4.3"@,
            first_cn(attrs) == first_cn(attrs.skip(i as int)),
        decreases n - i,
    {
        let a = &dn.attributes[i];
        assert(attrs[i as int] == (a.0@, opt_str(a.1)));
        assert(attrs.skip(i as int).skip(1) =~= attrs.skip(i + 1));
        let oid = chars_of(a.0.as_str());
        let cnv = chars_of(cn.as_str());
        if chars_eq(&oid, &cnv) {
            match &a.1 {
                Some(v) => {
                    return Some(v.clone());
                },
                None => {},
            }
        }
        i = i + 1;
    }
    assert(attrs.skip(n as int) =~= Seq::<(Seq<char>, Option<Seq<char>>)>::empty());
    if dn.text.as_str().unicode_len() == 0 {
        None
    } else {
        Some(dn.text.clone())
    }
}

/// What the slot view shows of a certificate.
pub struct CertInfo {
    pub algorithm: Option<String>,
    pub subject: Option<String>,
    pub issuer: Option<String>,
    pub validity: Option<String>,
}

/// The mathematical value of a [`CertInfo`].
pub struct CertInfoView {
    pub algorithm: Option<Seq<char>>,
    pub subject: Option<Seq<char>>,
    pub issuer: Option<Seq<char>>,
    pub validity: Option<Seq<char>>,
}

impl View for CertInfo {
    type V = CertInfoView;

    open spec fn view(&self) -> CertInfoView {
        CertInfoView {
            algorithm: opt_str(self.algorithm),
            subject: opt_str(self.subject),
            issuer: opt_str(self.issuer),
            validity: opt_str(self.validity),
        }
    }
}

/// What the slot view shows of a certificate with these fields and names: the
/// signature algorithm's short name (else the key algorithm's), the two names,
/// and `not_before – not_after`.
pub open spec fn cert_info_view(f: CertView, subject: DnView, issuer: DnView) -> CertInfoView {
    CertInfoView {
        algorithm: match oid_name(f.signature_oid) {
            Some(a) => Some(a),
            None => oid_name(f.key_oid),
        },
        subject: dn_display(subject),
        issuer: dn_display(issuer),
        validity: Some(f.not_before + " – "@ + f.not_after),
    }
}

/// What the slot view shows of a parsed certificate (see [`cert_info_view`]).
pub fn cert_info_of(f: &CertFields, subject: &DnFields, issuer: &DnFields) -> (c: CertInfo)
    ensures
        c@ == cert_info_view(f@, subject@, issuer@),
{
    let algorithm = match oid_to_algorithm_name(f.signature_oid.as_str()) {
        Some(a) => Some(a.to_owned()),
        None => match oid_to_algorithm_name(f.key_oid.as_str()) {
            Some(a) => Some(a.to_owned()),
            None => None,
        },
    };
    let mut validity = f.not_before.clone();
    validity.append(" – ");
    validity.append(f.not_after.as_str());
    CertInfo {
        algorithm,
        subject: dn_common_name(subject),
        issuer: dn_common_name(issuer),
        validity: Some(validity),
    }
}

/// What the slot view shows of a DER certificate, or nothing where x509-parser
/// reads no certificate from the bytes.
pub open spec fn cert_info_spec(der: Seq<u8>) -> Option<CertInfoView> {
    match (x509_cert_fields(der), x509_cert_names(der)) {
        (Some(f), Some((s, i))) => Some(cert_info_view(f, s, i)),
        _ => None,
    }
}

/// Parses a DER certificate for the slot view (see [`cert_info_spec`]).
pub fn parse_cert_info(der: &[u8]) -> (r: Option<CertInfo>)
    ensures
        match r {
            Some(c) => cert_info_spec(der@) == Some(c@),
            None => cert_info_spec(der@).is_none(),
        },
{
    let f = match parse_x509_fields(der) {
        Some(f) => f,
        None => return None,
    };
    match parse_x509_names(der) {
        Some((s, i)) => Some(cert_info_of(&f, &s, &i)),
        None => None,
    }
}

/// The certificate inside a PIV GET DATA response body: the value of tag 0x70
/// inside the value of tag 0x53.
pub open spec fn piv_cert_der(data: Seq<u8>) -> Option<Seq<u8>> {
    match tlv_find(data, 0, 0x53) {
        Some(d) => tlv_find(d, 0, 0x70),
        None => None,
    }
}

/// The response body: the response without its status word.
pub open spec fn response_body(resp: Seq<u8>) -> Seq<u8> {
    if resp.len() >= 2 {
        resp.subrange(0, resp.len() - 2)
    } else {
        resp
    }
}

/// What a GET DATA response for a slot says: nothing unless the status is
/// 0x9000; else the slot is occupied, with its certificate's details where the
/// response holds a certificate that x509-parser reads.
pub open spec fn slot_info_spec(slot: Seq<char>, resp: Seq<u8>) -> Option<SlotInfoView> {
    if status_word(resp) != 0x9000 {
        None
    } else {
        match piv_cert_der(response_body(resp)) {
            Some(der) => match cert_info_spec(der) {
                Some(c) => Some(
                    SlotInfoView {
                        slot,
                        algorithm: c.algorithm,
                        subject: c.subject,
                        issuer: c.issuer,
                        validity: c.validity,
                    },
                ),
                None => Some(occupied_view(slot)),
            },
            None => Some(occupied_view(slot)),
        }
    }
}

/// Reads the GET DATA response for a slot (see [`slot_info_spec`]).
pub fn slot_info_from_response(slot: &str, resp: &[u8]) -> (r: Option<SlotInfo>)
    ensures
        match r {
            Some(i) => slot_info_spec(slot@, resp@) == Some(i@),
            None => slot_info_spec(slot@, resp@).is_none(),
        },
{
    if apdu_sw(resp) != 0x9000 {
        return None;
    }
    let data = response_data(resp);
    let mut info = SlotInfo::occupied(slot);
    if let Some(d) = extract_tlv_value(&data, 0x53) {
        if let Some(der) = extract_tlv_value(&d, 0x70) {
            if let Some(c) = parse_cert_info(&der) {
                info.algorithm = c.algorithm;
                info.subject = c.subject;
                info.issuer = c.issuer;
                info.validity = c.validity;
            }
        }
    }
    Some(info)
}

/// The BER length octets of a value of `n` bytes (`n` below 65536): one octet
/// below 128, else `81 n` or `82 hi lo`.
pub open spec fn ber_length(n: nat) -> Seq<u8> {
    if n < 128 {
        seq![n as u8]
    } else if n < 256 {
        seq![0x81u8, n as u8]
    } else {
        seq![0x82u8, (n / 256) as u8, (n % 256) as u8]
    }
}

/// The BER-TLV encoding of one item: its tag, the length of `v` and `v`.
pub open spec fn tlv_item(tag: u8, v: Seq<u8>) -> Seq<u8> {
    seq![tag] + ber_length(v.len()) + v
}

/// A stream that starts with an item of `tag` yields that item's value,
/// whatever follows it.
pub proof fn lemma_tlv_find_first(tag: u8, v: Seq<u8>, rest: Seq<u8>)
    requires
        v.len() < 0x10000,
    ensures
        tlv_find(tlv_item(tag, v) + rest, 0, tag) == Some(v),
{
    let d = tlv_item(tag, v) + rest;
    let n = v.len();
    let h: int = 1 + ber_length(n).len() as int;
    assert(d[0] == tag);
    assert(d.subrange(h, h + n) =~= v);
    if n >= 128 {
        reveal_with_fuel(be_value, 3);
        if n < 256 {
            assert(d.subrange(2, 3) =~= seq![n as u8]);
            assert(be_value(seq![n as u8]) == n) by {
                assert(seq![n as u8].drop_last() =~= Seq::<u8>::empty());
            }
        } else {
            let hi = (n / 256) as u8;
            let lo = (n % 256) as u8;
            assert(d.subrange(2, 4) =~= seq![hi, lo]);
            assert(be_value(seq![hi, lo]) == n) by {
                assert(seq![hi, lo].drop_last() =~= seq![hi]);
                assert(seq![hi].drop_last() =~= Seq::<u8>::empty());
            }
        }
    }
}

/// The certificate of a slot is the DER inside the 0x70 item inside the 0x53
/// item of the GET DATA answer: for an answer `53 L (70 M der ...) ... 90 00`,
/// the slot's details are those of `der` where x509-parser reads it, and the
/// slot is merely occupied where it does not.
pub proof fn lemma_slot_cert_is_inner_der(
    slot: Seq<char>,
    der: Seq<u8>,
    inner_rest: Seq<u8>,
    outer_rest: Seq<u8>,
)
    requires
        der.len() + inner_rest.len() + 4 < 0x10000,
    ensures
        ({
            let resp = tlv_item(0x53, tlv_item(0x70, der) + inner_rest) + outer_rest + seq![0x90u8, 0x00u8];
            &&& piv_cert_der(response_body(resp)) == Some(der)
            &&& slot_info_spec(slot, resp) == match cert_info_spec(der) {
                Some(c) => Some(
                    SlotInfoView {
                        slot,
                        algorithm: c.algorithm,
                        subject: c.subject,
                        issuer: c.issuer,
                        validity: c.validity,
                    },
                ),
                None => Some(occupied_view(slot)),
            }
        }),
{
    let inner = tlv_item(0x70, der) + inner_rest;
    let body = tlv_item(0x53, inner) + outer_rest;
    let resp = body + seq![0x90u8, 0x00u8];
    assert(response_body(resp) =~= body);
    assert(status_word(resp) == 0x9000);
    lemma_tlv_find_first(0x53, inner, outer_rest);
    lemma_tlv_find_first(0x70, der, inner_rest);
}

/// GET DATA for a PIV data object `5F C1 xx`.
pub open spec fn piv_get_data_apdu_spec(object: u8) -> Seq<u8> {
    seq![0x00u8, 0xCB, 0x3F, 0xFF, 0x05, 0x5C, 0x03, 0x5F, 0xC1, object]
}

/// GET DATA for the PIV data object `5F C1 object`.
pub fn piv_get_data_apdu(object: u8) -> (r: Vec<u8>)
    ensures
        r@ == piv_get_data_apdu_spec(object),
{
    let r = vec![0x00u8, 0xCB, 0x3F, 0xFF, 0x05, 0x5C, 0x03, 0x5F, 0xC1, object];
    assert(r@ =~= piv_get_data_apdu_spec(object));
    r
}

/// `ykman piv info` output names at most one slot per line.
pub proof fn lemma_slots_per_line(ls: Seq<Seq<char>>)
    ensures
        piv_slot_names(ls).len() <= ls.len(),
    decreases ls.len(),
{
    if ls.len() > 0 {
        lemma_slots_per_line(ls.drop_last());
    }
}

} // verus!
