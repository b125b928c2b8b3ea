//! OTP applet (slots 1 and 2): status decoding and slot programming frames.
use vstd::prelude::*;
use vstd::string::*;
use vstd::utf8::*;
use crate::clock::subsec_nanos_now;
use crate::text::{chars_of, parse_u8_radix, parse_u8_radix_chars, trim, trim_chars};
use crate::model::touch_policy::{hex_word_text, push_hex_word};

verus! {

/// Whether a slot holds a credential.
#[derive(Debug, Clone, Copy, PartialEq, Eq, Structural)]
pub enum OtpSlotStatus {
    Occupied,
    Empty,
}

/// Status of both OTP slots.
#[derive(Debug, Clone, Copy, PartialEq, Eq, Structural)]
pub struct OtpState {
    pub slot1: OtpSlotStatus,
    pub slot2: OtpSlotStatus,
    pub slot1_touch: bool,
    pub slot2_touch: bool,
}

/// Errors of the OTP helpers.
#[derive(Debug, Clone, Copy, PartialEq, Eq, Structural)]
pub enum OtpError {
    /// The READ STATUS body has fewer than six bytes (its length).
    StatusTooShort(usize),
    /// A slot other than 1 or 2.
    InvalidSlot(u8),
    /// Hex text with an odd number of bytes.
    OddHexLength,
    /// Hex text with a pair that is not a hex byte.
    InvalidHex,
}

/// Touch-level bit: slot 1 is configured.
pub const SLOT1_VALID: u16 = 0x01;
/// Touch-level bit: slot 2 is configured.
pub const SLOT2_VALID: u16 = 0x02;
/// Touch-level bit: slot 1 needs a touch.
pub const SLOT1_TOUCH: u16 = 0x04;
/// Touch-level bit: slot 2 needs a touch.
pub const SLOT2_TOUCH: u16 = 0x08;

/// The little-endian touch level at bytes 4 and 5 of a READ STATUS body.
pub open spec fn touch_level(b: Seq<u8>) -> u16 {
    (b[5] as nat * 256 + b[4] as nat) as u16
}

/// The slot states that a touch level encodes.
pub open spec fn otp_state_of(tl: u16) -> OtpState {
    OtpState {
        slot1: if tl & SLOT1_VALID != 0 { OtpSlotStatus::Occupied } else { OtpSlotStatus::Empty },
        slot2: if tl & SLOT2_VALID != 0 { OtpSlotStatus::Occupied } else { OtpSlotStatus::Empty },
        slot1_touch: tl & SLOT1_TOUCH != 0,
        slot2_touch: tl & SLOT2_TOUCH != 0,
    }
}

/// Decodes the slot status of a READ STATUS response body (at least six bytes).
pub fn parse_otp_status(status_bytes: &[u8]) -> (r: Result<OtpState, OtpError>)
    ensures
        status_bytes@.len() < 6 ==> r == Err::<OtpState, OtpError>(
            OtpError::StatusTooShort(status_bytes@.len() as usize),
        ),
        status_bytes@.len() >= 6 ==> r == Ok::<OtpState, OtpError>(
            otp_state_of(touch_level(status_bytes@)),
        ),
{
    let n = status_bytes.len();
    if n < 6 {
        return Err(OtpError::StatusTooShort(n));
    }
    let tl: u16 = (status_bytes[5] as u16) * 256 + status_bytes[4] as u16;
    let slot1 = if tl & SLOT1_VALID != 0 {
        OtpSlotStatus::Occupied
    } else {
        OtpSlotStatus::Empty
    };
    let slot2 = if tl & SLOT2_VALID != 0 {
        OtpSlotStatus::Occupied
    } else {
        OtpSlotStatus::Empty
    };
    Ok(
        OtpState {
            slot1,
            slot2,
            slot1_touch: tl & SLOT1_TOUCH != 0,
            slot2_touch: tl & SLOT2_TOUCH != 0,
        },
    )
}

/// The READ STATUS command.
pub fn read_otp_status_apdu() -> (r: Vec<u8>)
    ensures
        r@ == seq![0x00u8, 0x03, 0x00, 0x00],
{
    let r = vec![0x00u8, 0x03, 0x00, 0x00];
    assert(r@ =~= seq![0x00u8, 0x03, 0x00, 0x00]);
    r
}

/// Credential kinds a slot can be programmed with.
#[derive(Debug, Clone, Copy, PartialEq, Eq, Structural)]
pub enum OtpCredentialType {
    YubicoOtp,
    ChallengeResponse,
    StaticPassword,
}

impl OtpCredentialType {
    /// The display name of the kind.
    pub open spec fn label(self) -> Seq<char> {
        match self {
            OtpCredentialType::YubicoOtp => "Yubico OTP"@,
            OtpCredentialType::ChallengeResponse => "HMAC-SHA1 Challenge-Response"@,
            OtpCredentialType::StaticPassword => "Static Password"@,
        }
    }

    /// Display text of the kind.
    pub fn to_string(&self) -> (s: String)
        ensures
            s@ == self.label(),
    {
        match self {
            OtpCredentialType::YubicoOtp => String::from_str("Yubico OTP"),
            OtpCredentialType::ChallengeResponse => String::from_str("HMAC-SHA1 Challenge-Response"),
            OtpCredentialType::StaticPassword => String::from_str("Static Password"),
        }
    }
}

/// What to program into a slot.
#[derive(Debug)]
pub struct OtpConfig {
    pub slot: u8,
    pub credential_type: OtpCredentialType,
    pub require_touch: bool,
    pub static_password: Option<String>,
    pub hmac_secret: Option<String>,
}

impl OtpConfig {
    /// A configuration without touch, password or secret.
    pub fn new(slot: u8, credential_type: OtpCredentialType) -> (c: Self)
        ensures
            c.slot == slot,
            c.credential_type == credential_type,
            !c.require_touch,
            c.static_password.is_none(),
            c.hmac_secret.is_none(),
    {
        OtpConfig {
            slot,
            credential_type,
            require_touch: false,
            static_password: None,
            hmac_secret: None,
        }
    }

    /// The same configuration with `require_touch` set to `require`.
    pub fn with_touch(self, require: bool) -> (c: Self)
        ensures
            c.slot == self.slot,
            c.credential_type == self.credential_type,
            c.require_touch == require,
            c.static_password == self.static_password,
            c.hmac_secret == self.hmac_secret,
    {
        let mut c = self;
        c.require_touch = require;
        c
    }
}

/// Whether a slot number names an OTP slot (1 or 2).
pub fn check_otp_slot(slot: u8) -> (r: Result<(), OtpError>)
    ensures
        (slot == 1 || slot == 2) ==> r is Ok,
        !(slot == 1 || slot == 2) ==> r == Err::<(), OtpError>(OtpError::InvalidSlot(slot)),
{
    if slot != 1 && slot != 2 {
        Err(OtpError::InvalidSlot(slot))
    } else {
        Ok(())
    }
}

/// The byte read from a two-byte pair by `u8::from_str_radix(.., 16)`.
pub open spec fn hex_pair(b0: u8, b1: u8) -> Option<u8> {
    parse_u8_radix(seq![b0 as char, b1 as char], 16)
}

/// The bytes that hex text stands for, given the UTF-8 bytes of the trimmed
/// text: an odd length is an error, otherwise each two-byte pair is read by
/// `u8::from_str_radix(.., 16)` and a pair that is not a hex byte is an error.
pub open spec fn hex_decode_spec(b: Seq<u8>) -> Result<Seq<u8>, OtpError> {
    if b.len() % 2 != 0 {
        Err(OtpError::OddHexLength)
    } else if exists|k: int| 0 <= k < b.len() / 2 && #[trigger] hex_pair(b[2 * k], b[2 * k + 1]) is None {
        Err(OtpError::InvalidHex)
    } else {
        Ok(Seq::new((b.len() / 2) as nat, |k: int| hex_pair(b[2 * k], b[2 * k + 1])->0))
    }
}

/// Every even byte offset of `b` lies between two characters (so that the
/// two-byte pairs of hex text can be sliced out).
pub open spec fn even_offsets_are_boundaries(b: Seq<u8>) -> bool {
    forall|k: int| 0 <= k <= b.len() && k % 2 == 0 ==> is_char_boundary(b, k)
}

/// Decodes hex text (see [`hex_decode_spec`]): the text is trimmed, then read
/// two bytes at a time. Text of even byte length whose pairs would split a
/// multi-byte character is left out (slicing it panics).
pub fn hex_decode(s: &str) -> (r: Result<Vec<u8>, OtpError>)
    requires
        encode_utf8(trim(s@)).len() % 2 == 0 ==> even_offsets_are_boundaries(encode_utf8(trim(s@))),
    ensures
        match (r, hex_decode_spec(encode_utf8(trim(s@)))) {
            (Ok(b), Ok(sb)) => b@ == sb,
            (Err(e), Err(se)) => e == se,
            _ => false,
        },
{
    let all = chars_of(s);
    let t = trim_chars(&all);
    let ts = crate::text::string_from_chars(&t);
    let bytes = ts.as_str().as_bytes();
    let ghost b = encode_utf8(trim(s@));
    assert(bytes@ == b);
    let n = bytes.len();
    if n % 2 != 0 {
        return Err(OtpError::OddHexLength);
    }
    let mut out: Vec<u8> = Vec::new();
    let mut k: usize = 0;
    while k < n / 2
        invariant
            n == b.len(),
            b == encode_utf8(trim(s@)),
            bytes@ == b,
            n % 2 == 0,
            k <= n / 2,
            out@.len() == k,
            forall|j: int| 0 <= j < k ==> #[trigger] hex_pair(b[2 * j], b[2 * j + 1]) == Some(out@[j]),
        decreases n / 2 - k,
    {
        let pair = vec![bytes[2 * k] as char, bytes[2 * k + 1] as char];
        assert(pair@ =~= seq![b[2 * k as int] as char, b[2 * k + 1] as char]);
        match parse_u8_radix_chars(&pair, 16) {
            Some(v) => {
                out.push(v);
            },
            None => {
                let ghost kk = k as int;
                assert(hex_pair(b[2 * kk], b[2 * kk + 1]) is None);
                assert(0 <= kk < b.len() / 2);
                assert(exists|j: int| 0 <= j < b.len() / 2 && #[trigger] hex_pair(b[2 * j], b[2 * j + 1]) is None);
                return Err(OtpError::InvalidHex);
            },
        }
        k = k + 1;
    }
    assert(out@ =~= Seq::new((b.len() / 2) as nat, |j: int| hex_pair(b[2 * j], b[2 * j + 1])->0));
    Ok(out)
}

/// The byte at position `i` of a 46-byte challenge-response frame with `key`.
pub open spec fn cr_frame_byte(key: Seq<u8>, touch: bool, i: int) -> u8 {
    if 22 <= i < 42 {
        key[i - 22]
    } else if i == 42 {
        0x22
    } else if i == 43 {
        0x40
    } else if i == 44 {
        if touch { 0x26 } else { 0x22 }
    } else {
        0
    }
}

/// The byte at position `i` of a 46-byte static-password frame for password bytes `pw`
/// (at most 38 of them are stored).
pub open spec fn static_frame_byte(pw: Seq<u8>, touch: bool, i: int) -> u8 {
    if i < pw.len() && i < 38 {
        pw[i]
    } else if i == 43 {
        0x02
    } else if i == 44 {
        if touch { 0x24 } else { 0x20 }
    } else {
        0
    }
}

/// The byte at position `i` of a 46-byte Yubico OTP frame whose private ID is
/// `e[0..6]` and whose AES key is `e[6..22]`.
pub open spec fn yubico_frame_byte(e: Seq<u8>, touch: bool, i: int) -> u8 {
    if 16 <= i < 22 {
        e[i - 16]
    } else if 22 <= i < 38 {
        e[i - 16]
    } else if i == 43 {
        0x02
    } else if i == 44 {
        if touch { 0x04 } else { 0x00 }
    } else {
        0
    }
}

/// The HMAC key of a challenge-response configuration: the decoded hex secret,
/// twenty zero bytes when it does not decode, or the first twenty entropy bytes
/// when there is no secret.
pub open spec fn cr_key(hmac_secret: Option<Seq<char>>, entropy: Seq<u8>) -> Seq<u8> {
    match hmac_secret {
        Some(h) => match hex_decode_spec(encode_utf8(trim(h))) {
            Ok(k) => k,
            Err(_) => Seq::new(20, |i: int| 0u8),
        },
        None => entropy.take(20),
    }
}

/// The 46-byte configuration frame for `config`; `entropy` stands for the
/// random bytes of generated keys.
pub open spec fn otp_frame(
    t: OtpCredentialType,
    touch: bool,
    static_password: Option<Seq<char>>,
    hmac_secret: Option<Seq<char>>,
    entropy: Seq<u8>,
) -> Seq<u8> {
    match t {
        OtpCredentialType::ChallengeResponse => Seq::new(
            46,
            |i: int| cr_frame_byte(cr_key(hmac_secret, entropy), touch, i),
        ),
        OtpCredentialType::StaticPassword => {
            let pw = match static_password {
                Some(p) => encode_utf8(p),
                None => Seq::empty(),
            };
            Seq::new(46, |i: int| static_frame_byte(pw, touch, i))
        },
        OtpCredentialType::YubicoOtp => Seq::new(46, |i: int| yubico_frame_byte(entropy, touch, i)),
    }
}

/// Requiring a touch changes one thing in a configuration frame: it sets the
/// button-trigger bit (0x04) of byte 44, which is clear without it; every other
/// byte stays. A challenge-response frame's byte 44 also always carries the
/// HMAC challenge-response (0x20) and short-challenge (0x02) flags.
pub proof fn lemma_touch_sets_button_bit(
    t: OtpCredentialType,
    static_password: Option<Seq<char>>,
    hmac_secret: Option<Seq<char>>,
    entropy: Seq<u8>,
)
    requires
        entropy.len() >= 22,
    ensures
        ({
            let plain = otp_frame(t, false, static_password, hmac_secret, entropy);
            let touched = otp_frame(t, true, static_password, hmac_secret, entropy);
            &&& plain.len() == 46 && touched.len() == 46
            &&& forall|i: int| 0 <= i < 46 && i != 44 ==> #[trigger] touched[i] == plain[i]
            &&& touched[44] == plain[44] | 0x04
            &&& plain[44] & 0x04 == 0
            &&& t == OtpCredentialType::ChallengeResponse ==> plain[44] & 0x22 == 0x22
        }),
{
    assert(0x22u8 | 0x04u8 == 0x26u8 && 0x22u8 & 0x04u8 == 0u8 && 0x22u8 & 0x22u8 == 0x22u8)
        by (bit_vector);
    assert(0x20u8 | 0x04u8 == 0x24u8 && 0x20u8 & 0x04u8 == 0u8) by (bit_vector);
    assert(0x00u8 | 0x04u8 == 0x04u8 && 0x00u8 & 0x04u8 == 0u8) by (bit_vector);
}

/// What a configuration needs so that building its frame does not fail: a
/// hex secret that decodes must give at least twenty bytes, and it must be
/// sliceable into pairs.
pub open spec fn config_frame_ok(hmac_secret: Option<Seq<char>>) -> bool {
    match hmac_secret {
        Some(h) => {
            &&& (encode_utf8(trim(h)).len() % 2 == 0 ==> even_offsets_are_boundaries(
                encode_utf8(trim(h)),
            ))
            &&& (hex_decode_spec(encode_utf8(trim(h))) matches Ok(k) ==> k.len() >= 20)
        },
        None => true,
    }
}

/// The view of an optional string.
pub open spec fn opt_str(o: Option<String>) -> Option<Seq<char>> {
    match o {
        Some(s) => Some(s@),
        None => None,
    }
}

fn zero_frame() -> (f: Vec<u8>)
    ensures
        f@ == Seq::new(46, |i: int| 0u8),
{
    let mut f: Vec<u8> = Vec::new();
    let mut i: usize = 0;
    while i < 46
        invariant
            i <= 46,
            f@ == Seq::new(i as nat, |j: int| 0u8),
        decreases 46 - i,
    {
        f.push(0);
        i = i + 1;
        assert(f@ =~= Seq::new(i as nat, |j: int| 0u8));
    }
    f
}

/// Builds the 46-byte configuration frame of `config` (see [`otp_frame`]).
pub fn otp_config_frame(config: &OtpConfig, entropy: &[u8]) -> (f: Vec<u8>)
    requires
        entropy@.len() >= 22,
        config.credential_type == OtpCredentialType::ChallengeResponse ==> config_frame_ok(
            opt_str(config.hmac_secret),
        ),
    ensures
        f@ == otp_frame(
            config.credential_type,
            config.require_touch,
            opt_str(config.static_password),
            opt_str(config.hmac_secret),
            entropy@,
        ),
{
    let touch = config.require_touch;
    let mut frame = zero_frame();
    match config.credential_type {
        OtpCredentialType::ChallengeResponse => {
            let key: Vec<u8> = match &config.hmac_secret {
                Some(hex) => match hex_decode(hex.as_str()) {
                    Ok(k) => k,
                    Err(_) => {
                        let mut k: Vec<u8> = Vec::new();
                        let mut j: usize = 0;
                        while j < 20
                            invariant
                                j <= 20,
                                k@ == Seq::new(j as nat, |i: int| 0u8),
                            decreases 20 - j,
                        {
                            k.push(0);
                            j = j + 1;
                            assert(k@ =~= Seq::new(j as nat, |i: int| 0u8));
                        }
                        k
                    },
                },
                None => {
                    let mut k: Vec<u8> = Vec::new();
                    let mut j: usize = 0;
                    while j < 20
                        invariant
                            j <= 20,
                            entropy@.len() >= 22,
                            k@ == entropy@.take(j as int),
                        decreases 20 - j,
                    {
                        k.push(entropy[j]);
                        j = j + 1;
                        assert(k@ =~= entropy@.take(j as int));
                    }
                    k
                },
            };
            let ghost kv = cr_key(opt_str(config.hmac_secret), entropy@);
            assert(key@ == kv);
            let mut i: usize = 0;
            while i < 46
                invariant
                    i <= 46,
                    key@ == kv,
                    kv.len() >= 20,
                    frame@.len() == 46,
                    forall|j: int| 0 <= j < i ==> frame@[j] == cr_frame_byte(kv, touch, j),
                    forall|j: int| i <= j < 46 ==> frame@[j] == 0,
                decreases 46 - i,
            {
                let v: u8 = if 22 <= i && i < 42 {
                    key[i - 22]
                } else if i == 42 {
                    0x22
                } else if i == 43 {
                    0x40
                } else if i == 44 {
                    if touch { 0x26 } else { 0x22 }
                } else {
                    0
                };
                frame.set(i, v);
                i = i + 1;
            }
            assert(frame@ =~= Seq::new(46, |i: int| cr_frame_byte(kv, touch, i)));
        },
        OtpCredentialType::StaticPassword => {
            let empty = String::new();
            let pw_string: &String = match &config.static_password {
                Some(p) => p,
                None => &empty,
            };
            let pw = pw_string.as_str().as_bytes();
            let ghost pv = match opt_str(config.static_password) {
                Some(p) => encode_utf8(p),
                None => Seq::<u8>::empty(),
            };
            assert(pw@ == pv);
            let plen = pw.len();
            let mut i: usize = 0;
            while i < 46
                invariant
                    i <= 46,
                    pw@ == pv,
                    plen == pv.len(),
                    frame@.len() == 46,
                    forall|j: int| 0 <= j < i ==> frame@[j] == static_frame_byte(pv, touch, j),
                    forall|j: int| i <= j < 46 ==> frame@[j] == 0,
                decreases 46 - i,
            {
                let v: u8 = if i < plen && i < 38 {
                    pw[i]
                } else if i == 43 {
                    0x02
                } else if i == 44 {
                    if touch { 0x24 } else { 0x20 }
                } else {
                    0
                };
                frame.set(i, v);
                i = i + 1;
            }
            assert(frame@ =~= Seq::new(46, |i: int| static_frame_byte(pv, touch, i)));
        },
        OtpCredentialType::YubicoOtp => {
            let mut i: usize = 0;
            while i < 46
                invariant
                    i <= 46,
                    entropy@.len() >= 22,
                    frame@.len() == 46,
                    forall|j: int| 0 <= j < i ==> frame@[j] == yubico_frame_byte(entropy@, touch, j),
                    forall|j: int| i <= j < 46 ==> frame@[j] == 0,
                decreases 46 - i,
            {
                let v: u8 = if 16 <= i && i < 38 {
                    entropy[i - 16]
                } else if i == 43 {
                    0x02
                } else if i == 44 {
                    if touch { 0x04 } else { 0x00 }
                } else {
                    0
                };
                frame.set(i, v);
                i = i + 1;
            }
            assert(frame@ =~= Seq::new(46, |i: int| yubico_frame_byte(entropy@, touch, i)));
        },
    }
    frame
}

/// The PROGRAM SLOT command `00 01 slot 00 2E` followed by a 46-byte frame.
pub open spec fn program_slot_apdu(slot: u8, frame: Seq<u8>) -> Seq<u8> {
    seq![0x00u8, 0x01, slot, 0x00, 46] + frame
}

fn program_apdu(slot: u8, frame: &[u8]) -> (r: Vec<u8>)
    requires
        frame@.len() == 46,
    ensures
        r@ == program_slot_apdu(slot, frame@),
{
    let mut apdu = vec![0x00u8, 0x01, slot, 0x00, 46];
    let mut i: usize = 0;
    let ghost head = apdu@;
    while i < 46
        invariant
            i <= 46,
            frame@.len() == 46,
            apdu@ == head + frame@.subrange(0, i as int),
        decreases 46 - i,
    {
        apdu.push(frame[i]);
        i = i + 1;
        assert(apdu@ =~= head + frame@.subrange(0, i as int));
    }
    assert(apdu@ =~= program_slot_apdu(slot, frame@));
    apdu
}

/// The PROGRAM SLOT command that writes `config`, or the error for a slot
/// other than 1 and 2.
pub fn build_program_slot_apdu(config: &OtpConfig, entropy: &[u8]) -> (r: Result<Vec<u8>, OtpError>)
    requires
        entropy@.len() >= 22,
        config.credential_type == OtpCredentialType::ChallengeResponse ==> config_frame_ok(
            opt_str(config.hmac_secret),
        ),
    ensures
        (config.slot == 1 || config.slot == 2) ==> (r matches Ok(a) && a@ == program_slot_apdu(
            config.slot,
            otp_frame(
                config.credential_type,
                config.require_touch,
                opt_str(config.static_password),
                opt_str(config.hmac_secret),
                entropy@,
            ),
        )),
        !(config.slot == 1 || config.slot == 2) ==> r == Err::<Vec<u8>, OtpError>(
            OtpError::InvalidSlot(config.slot),
        ),
{
    if config.slot != 1 && config.slot != 2 {
        return Err(OtpError::InvalidSlot(config.slot));
    }
    let frame = otp_config_frame(config, entropy);
    Ok(program_apdu(config.slot, &frame))
}

/// The PROGRAM SLOT command that erases a slot (an all-zero frame), or the
/// error for a slot other than 1 and 2.
pub fn build_delete_slot_apdu(slot: u8) -> (r: Result<Vec<u8>, OtpError>)
    ensures
        (slot == 1 || slot == 2) ==> (r matches Ok(a) && a@ == program_slot_apdu(
            slot,
            Seq::new(46, |i: int| 0u8),
        )),
        !(slot == 1 || slot == 2) ==> r == Err::<Vec<u8>, OtpError>(OtpError::InvalidSlot(slot)),
{
    if slot != 1 && slot != 2 {
        return Err(OtpError::InvalidSlot(slot));
    }
    let frame = zero_frame();
    Ok(program_apdu(slot, &frame))
}

/// The low byte of a nanosecond count, the entropy source of generated keys.
pub fn byte_from_nanos(nanos: u32) -> (b: u8)
    ensures
        b == (nanos % 256) as u8,
{
    (nanos % 256) as u8
}

/// A byte taken from the clock (not a cryptographic random source): the low
/// byte of the current sub-second nanoseconds. Any byte may come back.
pub fn rand_byte() -> u8 {
    let n = subsec_nanos_now();
    byte_from_nanos(n)
}

/// The answer to SELECT of the OTP application: an error unless the status is 0x9000.
pub fn otp_select_outcome(sw: u16) -> (r: Result<(), String>)
    ensures
        sw == 0x9000 ==> r is Ok,
        sw != 0x9000 ==> (r matches Err(e) && e@ == "OTP application not available"@),
{
    if sw == 0x9000 {
        Ok(())
    } else {
        Err(String::from_str("OTP application not available"))
    }
}

/// The answer to a slot write (`PROGRAM SLOT` or `DELETE SLOT` as `what`): an
/// error `{what} failed (SW 0xXXXX)` unless the status is 0x9000.
pub fn otp_write_outcome(sw: u16, what: &str) -> (r: Result<(), String>)
    ensures
        sw == 0x9000 ==> r is Ok,
        sw != 0x9000 ==> (r matches Err(e) && e@ == what@ + " failed (SW "@ + hex_word_text(sw) + ")"@),
{
    if sw == 0x9000 {
        Ok(())
    } else {
        let mut e = String::from_str(what);
        e.append(" failed (SW ");
        push_hex_word(&mut e, sw);
        e.append(")");
        Err(e)
    }
}

} // verus!
