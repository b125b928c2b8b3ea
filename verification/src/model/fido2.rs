//! FIDO2 authenticator: its state from the getInfo reply, resident credentials,
//! device discovery and the raw CTAPHID authenticatorReset frames.
use vstd::prelude::*;
use vstd::string::*;
use crate::model::otp::opt_str;
use crate::text::{chars_of, contains, contains_chars, decimal, push_decimal, str_to_lowercase, to_lowercase_chars};

verus! {

/// What the authenticator reports.
#[derive(Debug)]
pub struct Fido2State {
    /// `major.minor.patch`, or `None` where the firmware version reads 0.
    pub firmware_version: Option<String>,
    /// Supported algorithms, such as `ES256`.
    pub algorithms: Vec<String>,
    /// A FIDO2 PIN is set (option `clientPin`).
    pub pin_is_set: bool,
    /// Remaining PIN retries.
    pub pin_retry_count: u8,
    /// Resident credentials; `None` while locked behind the PIN.
    pub credentials: Option<Vec<Fido2Credential>>,
    /// Credential management is supported.
    pub supports_cred_mgmt: bool,
}

/// One resident credential (passkey).
#[derive(Debug)]
pub struct Fido2Credential {
    pub rp_id: String,
    /// Relying party name; an empty one is `None`.
    pub rp_name: Option<String>,
    /// The user's name, or the display name where the name is empty.
    pub user_name: String,
    /// The credential ID, which deletion needs.
    pub credential_id: Vec<u8>,
}

/// The mathematical value of a [`Fido2Credential`].
pub struct Fido2CredentialView {
    pub rp_id: Seq<char>,
    pub rp_name: Option<Seq<char>>,
    pub user_name: Seq<char>,
    pub credential_id: Seq<u8>,
}

impl View for Fido2Credential {
    type V = Fido2CredentialView;

    open spec fn view(&self) -> Fido2CredentialView {
        Fido2CredentialView {
            rp_id: self.rp_id@,
            rp_name: opt_str(self.rp_name),
            user_name: self.user_name@,
            credential_id: self.credential_id@,
        }
    }
}

/// The authenticator's getInfo reply, as far as the state reads it.
pub struct Fido2Info {
    /// Options and their values, in order.
    pub options: Vec<(String, bool)>,
    /// Algorithms as (type, algorithm) pairs.
    pub algorithms: Vec<(String, String)>,
    /// Firmware version, `0x00MMmmpp`; 0 when not reported.
    pub firmware_version: u32,
}

/// The options as plain values.
pub open spec fn option_views(o: Seq<(String, bool)>) -> Seq<(Seq<char>, bool)> {
    o.map_values(|p: (String, bool)| (p.0@, p.1))
}

/// The value of the first option named `key`; false when there is none.
pub open spec fn option_value(opts: Seq<(Seq<char>, bool)>, key: Seq<char>) -> bool
    decreases opts.len(),
{
    if opts.len() == 0 {
        false
    } else if opts[0].0 == key {
        opts[0].1
    } else {
        option_value(opts.skip(1), key)
    }
}

/// Some option `credMgmt` or `credentialMgmtPreview` is true.
pub open spec fn cred_mgmt_enabled(opts: Seq<(Seq<char>, bool)>) -> bool {
    exists|i: int|
        0 <= i < opts.len() && (#[trigger] opts[i]).1 && (opts[i].0 == "credMgmt"@ || opts[i].0
            == "credentialMgmtPreview"@)
}

/// `major.minor.patch` of a packed firmware version.
pub open spec fn firmware_text(v: u32) -> Seq<char> {
    decimal(((v as nat / 65536) % 256) as nat) + "."@ + decimal(((v as nat / 256) % 256) as nat) + "."@
        + decimal((v as nat % 256) as nat)
}

fn option_value_exec(opts: &Vec<(String, bool)>, key: &str) -> (b: bool)
    ensures
        b == option_value(option_views(opts@), key@),
{
    let ghost ov = option_views(opts@);
    let k = chars_of(key);
    let mut i: usize = 0;
    assert(ov.skip(0) =~= ov);
    while i < opts.len()
        invariant
            ov == option_views(opts@),
            i <= opts@.len(),
            k@ == key@,
            option_value(ov, key@) == option_value(ov.skip(i as int), key@),
        decreases opts@.len() - i,
    {
        assert(ov.skip(i as int).skip(1) =~= ov.skip(i + 1));
        assert(ov[i as int] == (opts@[i as int].0@, opts@[i as int].1));
        let name = chars_of(opts[i].0.as_str());
        if crate::text::chars_eq(&name, &k) {
            return opts[i].1;
        }
        i = i + 1;
    }
    false
}

fn cred_mgmt_exec(opts: &Vec<(String, bool)>) -> (b: bool)
    ensures
        b == cred_mgmt_enabled(option_views(opts@)),
{
    let ghost ov = option_views(opts@);
    let mut i: usize = 0;
    while i < opts.len()
        invariant
            ov == option_views(opts@),
            i <= opts@.len(),
            forall|j: int| 0 <= j < i ==> !((#[trigger] ov[j]).1 && (ov[j].0 == "credMgmt"@ || ov[j].0
                == "credentialMgmtPreview"@)),
        decreases opts@.len() - i,
    {
        assert(ov[i as int] == (opts@[i as int].0@, opts@[i as int].1));
        let name = chars_of(opts[i].0.as_str());
        if opts[i].1 && (crate::text::is_literal(&name, "credMgmt") || crate::text::is_literal(
            &name,
            "credentialMgmtPreview",
        )) {
            return true;
        }
        i = i + 1;
    }
    false
}

/// The state's fields from getInfo and the PIN retry query (`None` where it
/// failed; the query is only made with a PIN set).
pub open spec fn state_fields(info_opts: Seq<(Seq<char>, bool)>, algs: Seq<Seq<char>>, fw: u32, pin_retries: Option<i32>) -> (
    Option<Seq<char>>,
    Seq<Seq<char>>,
    bool,
    u8,
    bool,
) {
    let pin_is_set = option_value(info_opts, "clientPin"@);
    (
        if fw == 0 {
            None
        } else {
            Some(firmware_text(fw))
        },
        algs,
        pin_is_set,
        if pin_is_set {
            match pin_retries {
                Some(r) => r as u8,
                None => 0,
            }
        } else {
            0
        },
        cred_mgmt_enabled(info_opts),
    )
}

/// Credential management is reported supported exactly when getInfo lists the
/// option `credMgmt` (CTAP 2.1) or `credentialMgmtPreview` (the 2.1 preview)
/// with the value true; the other fields do not change that.
pub proof fn lemma_cred_mgmt_support(
    opts: Seq<(Seq<char>, bool)>,
    algs: Seq<Seq<char>>,
    fw: u32,
    pin_retries: Option<i32>,
)
    ensures
        (exists|i: int| 0 <= i < opts.len() && #[trigger] opts[i] == ("credMgmt"@, true)) ==> state_fields(
            opts,
            algs,
            fw,
            pin_retries,
        ).4,
        (exists|i: int| 0 <= i < opts.len() && #[trigger] opts[i] == ("credentialMgmtPreview"@, true))
            ==> state_fields(opts, algs, fw, pin_retries).4,
        state_fields(opts, algs, fw, pin_retries).4 ==> exists|i: int|
            0 <= i < opts.len() && (#[trigger] opts[i] == ("credMgmt"@, true) || opts[i] == (
                "credentialMgmtPreview"@,
                true,
            )),
{
    if state_fields(opts, algs, fw, pin_retries).4 {
        let i = choose|i: int|
            0 <= i < opts.len() && (#[trigger] opts[i]).1 && (opts[i].0 == "credMgmt"@ || opts[i].0
                == "credentialMgmtPreview"@);
        assert(opts[i] == ("credMgmt"@, true) || opts[i] == ("credentialMgmtPreview"@, true));
    }
}

/// The state shown before the PIN is given (credentials locked), from the
/// getInfo reply and the PIN retry count.
pub fn get_fido2_info(info: &Fido2Info, pin_retries: Option<i32>) -> (s: Fido2State)
    ensures
        (opt_str(s.firmware_version), s.algorithms@.map_values(|a: String| a@), s.pin_is_set, s.pin_retry_count,
        s.supports_cred_mgmt) == state_fields(
            option_views(info.options@),
            info.algorithms@.map_values(|p: (String, String)| p.1@),
            info.firmware_version,
            pin_retries,
        ),
        s.credentials.is_none(),
{
    let pin_is_set = option_value_exec(&info.options, "clientPin");
    let retries: u8 = if pin_is_set {
        match pin_retries {
            Some(r) => r as u8,
            None => 0,
        }
    } else {
        0
    };
    let supports_cred_mgmt = cred_mgmt_exec(&info.options);
    let mut algorithms: Vec<String> = Vec::new();
    let mut i: usize = 0;
    while i < info.algorithms.len()
        invariant
            i <= info.algorithms@.len(),
            algorithms@.map_values(|a: String| a@) == info.algorithms@.take(i as int).map_values(
                |p: (String, String)| p.1@,
            ),
        decreases info.algorithms@.len() - i,
    {
        let ghost before = algorithms@.map_values(|a: String| a@);
        algorithms.push(info.algorithms[i].1.clone());
        assert(algorithms@.map_values(|a: String| a@) =~= before.push(info.algorithms@[i as int].1@));
        assert(info.algorithms@.take(i + 1).map_values(|p: (String, String)| p.1@) =~= info.algorithms@.take(
            i as int,
        ).map_values(|p: (String, String)| p.1@).push(info.algorithms@[i as int].1@));
        i = i + 1;
    }
    assert(info.algorithms@.take(info.algorithms@.len() as int) =~= info.algorithms@);
    let v = info.firmware_version;
    let firmware_version = if v == 0 {
        None
    } else {
        let mut s = String::new();
        push_decimal(&mut s, ((v / 65536) % 256) as u64);
        s.append(".");
        push_decimal(&mut s, ((v / 256) % 256) as u64);
        s.append(".");
        push_decimal(&mut s, (v % 256) as u64);
        Some(s)
    };
    Fido2State {
        firmware_version,
        algorithms,
        pin_is_set,
        pin_retry_count: retries,
        credentials: None,
        supports_cred_mgmt,
    }
}

/// One resident credential as credential management lists it.
pub struct CredentialEntry {
    pub user_name: String,
    pub user_display_name: String,
    pub credential_id: Vec<u8>,
}

/// A relying party and its resident credentials.
pub struct RpCredentials {
    pub rp_id: String,
    pub rp_name: String,
    pub credentials: Vec<CredentialEntry>,
}

/// The credential shown for an entry of a relying party.
pub open spec fn credential_view(rp: RpCredentials, c: CredentialEntry) -> Fido2CredentialView {
    Fido2CredentialView {
        rp_id: rp.rp_id@,
        rp_name: if rp.rp_name@.len() == 0 {
            None
        } else {
            Some(rp.rp_name@)
        },
        user_name: if c.user_name@.len() > 0 {
            c.user_name@
        } else {
            c.user_display_name@
        },
        credential_id: c.credential_id@,
    }
}

/// The credentials of one relying party, in order.
pub open spec fn rp_credential_views(rp: RpCredentials) -> Seq<Fido2CredentialView> {
    rp.credentials@.map_values(|c: CredentialEntry| credential_view(rp, c))
}

/// All credentials, relying party by relying party.
pub open spec fn all_credential_views(rps: Seq<RpCredentials>) -> Seq<Fido2CredentialView>
    decreases rps.len(),
{
    if rps.len() == 0 {
        Seq::empty()
    } else {
        all_credential_views(rps.drop_last()) + rp_credential_views(rps.last())
    }
}

/// The views of a sequence of credentials.
pub open spec fn fido2_views(s: Seq<Fido2Credential>) -> Seq<Fido2CredentialView> {
    s.map_values(|c: Fido2Credential| c@)
}

/// The resident credentials listed for each relying party, in order.
pub fn enumerate_credentials(rps: &Vec<RpCredentials>) -> (r: Vec<Fido2Credential>)
    ensures
        fido2_views(r@) == all_credential_views(rps@),
{
    let mut all: Vec<Fido2Credential> = Vec::new();
    let mut i: usize = 0;
    while i < rps.len()
        invariant
            i <= rps@.len(),
            fido2_views(all@) == all_credential_views(rps@.take(i as int)),
        decreases rps@.len() - i,
    {
        let rp = &rps[i];
        assert(rps@.take(i + 1).drop_last() =~= rps@.take(i as int));
        let ghost base = fido2_views(all@);
        let mut j: usize = 0;
        while j < rp.credentials.len()
            invariant
                j <= rp.credentials@.len(),
                fido2_views(all@) == base + rp_credential_views(*rp).take(j as int),
            decreases rp.credentials@.len() - j,
        {
            let c = &rp.credentials[j];
            let rp_name = if rp.rp_name.as_str().unicode_len() == 0 {
                None
            } else {
                Some(rp.rp_name.clone())
            };
            let user_name = if c.user_name.as_str().unicode_len() > 0 {
                c.user_name.clone()
            } else {
                c.user_display_name.clone()
            };
            let cred = Fido2Credential {
                rp_id: rp.rp_id.clone(),
                rp_name,
                user_name,
                credential_id: c.credential_id.clone(),
            };
            assert(cred@ == credential_view(*rp, *c));
            let ghost before = fido2_views(all@);
            all.push(cred);
            assert(fido2_views(all@) =~= before.push(cred@));
            assert(rp_credential_views(*rp).take(j + 1) =~= rp_credential_views(*rp).take(j as int).push(
                credential_view(*rp, *c),
            ));
            j = j + 1;
        }
        assert(rp_credential_views(*rp).take(rp.credentials@.len() as int) =~= rp_credential_views(*rp));
        i = i + 1;
    }
    assert(rps@.take(rps@.len() as int) =~= rps@);
    all
}

/// The FIDO HID usage page and usage (CTAP HID).
pub open spec fn is_fido_usage(d: (u16, u16)) -> bool {
    d.0 == 0xF1D0 && d.1 == 0x01
}

/// Some HID device, given as (usage page, usage), is a FIDO authenticator.
pub fn is_fido_device_present(devices: &[(u16, u16)]) -> (b: bool)
    ensures
        b == exists|i: int| 0 <= i < devices@.len() && is_fido_usage(#[trigger] devices@[i]),
{
    let mut i: usize = 0;
    while i < devices.len()
        invariant
            i <= devices@.len(),
            forall|j: int| 0 <= j < i ==> !is_fido_usage(#[trigger] devices@[j]),
        decreases devices@.len() - i,
    {
        let d = devices[i];
        if d.0 == 0xF1D0 && d.1 == 0x01 {
            assert(is_fido_usage(devices@[i as int]));
            return true;
        }
        i = i + 1;
    }
    false
}

/// Why a raw authenticator reset failed.
#[derive(Debug, Clone, Copy, PartialEq, Eq, Structural)]
pub enum Fido2ResetError {
    /// The CTAPHID_INIT answer had only this many bytes.
    InitTooShort(usize),
    /// The CTAPHID_CBOR answer had only this many bytes.
    CborTooShort(usize),
    /// The device was not freshly plugged in (CTAP2_ERR_NOT_ALLOWED).
    NotAllowed,
    /// Another CTAP2 status.
    CtapError(u8),
}

/// The message of a reset error.
pub open spec fn reset_error_text(e: Fido2ResetError) -> Seq<char> {
    match e {
        Fido2ResetError::InitTooShort(n) => "CTAPHID_INIT response too short: "@ + decimal(n as nat) + " bytes"@,
        Fido2ResetError::CborTooShort(n) => "CTAPHID_CBOR response too short: "@ + decimal(n as nat) + " bytes"@,
        Fido2ResetError::NotAllowed => "Reset not allowed — device must be freshly plugged in (within 10 seconds of USB insertion)"@,
        Fido2ResetError::CtapError(s) => "Authenticator reset failed with CTAP2 error: "@
            + crate::model::touch_policy::hex_byte_text(s),
    }
}

impl Fido2ResetError {
    /// The message of the error (see [`reset_error_text`]).
    pub fn to_string(&self) -> (s: String)
        ensures
            s@ == reset_error_text(*self),
    {
        match self {
            Fido2ResetError::InitTooShort(n) => {
                let mut s = String::from_str("CTAPHID_INIT response too short: ");
                push_decimal(&mut s, *n as u64);
                s.append(" bytes");
                s
            },
            Fido2ResetError::CborTooShort(n) => {
                let mut s = String::from_str("CTAPHID_CBOR response too short: ");
                push_decimal(&mut s, *n as u64);
                s.append(" bytes");
                s
            },
            Fido2ResetError::NotAllowed => String::from_str(
                "Reset not allowed — device must be freshly plugged in (within 10 seconds of USB insertion)",
            ),
            Fido2ResetError::CtapError(b) => {
                let mut s = String::from_str("Authenticator reset failed with CTAP2 error: ");
                crate::model::touch_policy::push_hex_byte(&mut s, *b);
                s
            },
        }
    }
}

/// A 65-byte HID output report: report ID 0, then `frame`, then zeros.
pub open spec fn hid_report(frame: Seq<u8>) -> Seq<u8> {
    seq![0u8] + frame + Seq::new((64 - frame.len()) as nat, |i: int| 0u8)
}

/// CTAPHID_INIT on the broadcast channel with the nonce 01..08.
pub open spec fn init_frame() -> Seq<u8> {
    seq![0xFFu8, 0xFF, 0xFF, 0xFF, 0x86, 0x00, 0x08, 1, 2, 3, 4, 5, 6, 7, 8]
}

/// CTAPHID_CBOR with the one-byte payload 0x07 (authenticatorReset).
pub open spec fn reset_frame(cid: Seq<u8>) -> Seq<u8> {
    cid + seq![0x90u8, 0x00, 0x01, 0x07]
}

fn report_of(frame: &[u8]) -> (r: Vec<u8>)
    requires
        frame@.len() <= 64,
    ensures
        r@ == hid_report(frame@),
{
    let mut r: Vec<u8> = vec![0u8];
    let mut i: usize = 0;
    while i < frame.len()
        invariant
            i <= frame@.len() <= 64,
            r@ == seq![0u8] + frame@.subrange(0, i as int),
        decreases frame@.len() - i,
    {
        r.push(frame[i]);
        i = i + 1;
        assert(r@ =~= seq![0u8] + frame@.subrange(0, i as int));
    }
    assert(frame@.subrange(0, frame@.len() as int) =~= frame@);
    let mut k: usize = frame.len();
    while k < 64
        invariant
            frame@.len() <= k <= 64,
            r@ == seq![0u8] + frame@ + Seq::new((k - frame@.len()) as nat, |i: int| 0u8),
        decreases 64 - k,
    {
        r.push(0);
        k = k + 1;
        assert(r@ =~= seq![0u8] + frame@ + Seq::new((k - frame@.len()) as nat, |i: int| 0u8));
    }
    r
}

/// The HID report that opens a channel (see [`init_frame`]).
pub fn ctaphid_init_report() -> (r: Vec<u8>)
    ensures
        r@ == hid_report(init_frame()),
{
    let f: [u8; 15] = [0xFF, 0xFF, 0xFF, 0xFF, 0x86, 0x00, 0x08, 1, 2, 3, 4, 5, 6, 7, 8];
    assert(f@ =~= init_frame());
    report_of(&f)
}

/// The channel the INIT answer (a 64-byte read of `n` bytes) allocates: bytes
/// 15 to 18; an answer under 17 bytes is an error.
pub fn reset_channel_id(response: &[u8], n: usize) -> (r: Result<[u8; 4], Fido2ResetError>)
    requires
        response@.len() == 64,
    ensures
        n < 17 ==> r == Err::<[u8; 4], Fido2ResetError>(Fido2ResetError::InitTooShort(n)),
        n >= 17 ==> (r matches Ok(c) && c@ == response@.subrange(15, 19)),
{
    if n < 17 {
        return Err(Fido2ResetError::InitTooShort(n));
    }
    let c: [u8; 4] = [response[15], response[16], response[17], response[18]];
    assert(c@ =~= response@.subrange(15, 19));
    Ok(c)
}

/// The HID report that asks the authenticator on channel `cid` to reset.
pub fn ctaphid_reset_report(cid: &[u8; 4]) -> (r: Vec<u8>)
    ensures
        r@ == hid_report(reset_frame(cid@)),
{
    let f: [u8; 8] = [cid[0], cid[1], cid[2], cid[3], 0x90, 0x00, 0x01, 0x07];
    assert(f@ =~= reset_frame(cid@));
    report_of(&f)
}

/// The outcome of the reset by its answer (a 64-byte read of `m` bytes): the
/// CTAP2 status is byte 7.
pub fn reset_outcome(response: &[u8], m: usize) -> (r: Result<(), Fido2ResetError>)
    requires
        response@.len() == 64,
    ensures
        r == (if m < 8 {
            Err(Fido2ResetError::CborTooShort(m))
        } else if response@[7] == 0x00 {
            Ok(())
        } else if response@[7] == 0x2E {
            Err(Fido2ResetError::NotAllowed)
        } else {
            Err(Fido2ResetError::CtapError(response@[7]))
        }),
{
    if m < 8 {
        return Err(Fido2ResetError::CborTooShort(m));
    }
    let status = response[7];
    if status == 0x00 {
        Ok(())
    } else if status == 0x2E {
        Err(Fido2ResetError::NotAllowed)
    } else {
        Err(Fido2ResetError::CtapError(status))
    }
}

/// The message for a failure to open the authenticator: a hint about
/// administrator rights where the error mentions access or permission.
pub open spec fn device_error_text(msg: Seq<char>) -> Seq<char> {
    let lower = str_to_lowercase(msg);
    if contains(lower, "access"@) || contains(lower, "permission"@) {
        "FIDO2 device error: "@ + msg
            + " — on Windows, run yubitui as Administrator (FIDO2/HID access requires elevated privileges)"@
    } else {
        "FIDO2 device error: "@ + msg
    }
}

/// The message for a failure to open the authenticator (see [`device_error_text`]).
pub fn fido2_device_error(msg: &str) -> (s: String)
    ensures
        s@ == device_error_text(msg@),
{
    let m = chars_of(msg);
    let lower = to_lowercase_chars(&m);
    let a = chars_of("access");
    let p = chars_of("permission");
    let mut s = String::from_str("FIDO2 device error: ");
    s.append(msg);
    if contains_chars(&lower, &a) || contains_chars(&lower, &p) {
        s.append(" — on Windows, run yubitui as Administrator (FIDO2/HID access requires elevated privileges)");
    }
    s
}

} // verus!
