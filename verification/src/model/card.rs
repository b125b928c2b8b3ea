//! Smart-card response helpers shared by the applets.
use vstd::prelude::*;

verus! {

/// The status word of a response: its last two bytes, big-endian; 0 when the
/// response is shorter than two bytes.
pub open spec fn status_word(resp: Seq<u8>) -> u16 {
    if resp.len() < 2 {
        0
    } else {
        (resp[resp.len() - 2] as nat * 256 + resp[resp.len() - 1] as nat) as u16
    }
}

/// The status word (`SW1 SW2`) at the end of an APDU response.
pub fn apdu_sw(resp: &[u8]) -> (sw: u16)
    ensures
        sw == status_word(resp@),
{
    let n = resp.len();
    if n < 2 {
        0
    } else {
        (resp[n - 2] as u16) * 256 + resp[n - 1] as u16
    }
}

/// The response data: everything before the status word.
pub fn response_data(resp: &[u8]) -> (d: Vec<u8>)
    ensures
        resp@.len() >= 2 ==> d@ == resp@.subrange(0, resp@.len() - 2),
        resp@.len() < 2 ==> d@ == resp@,
{
    let n = resp.len();
    let end = if n >= 2 {
        n - 2
    } else {
        n
    };
    let mut d: Vec<u8> = Vec::new();
    let mut i: usize = 0;
    while i < end
        invariant
            i <= end <= n,
            n == resp@.len(),
            d@ == resp@.subrange(0, i as int),
        decreases end - i,
    {
        d.push(resp[i]);
        i = i + 1;
        assert(d@ =~= resp@.subrange(0, i as int));
    }
    assert(resp@.subrange(0, n as int) =~= resp@);
    d
}

/// SELECT of the PIV applet (AID `A0 00 00 03 08 00 00 10 00`, with Le).
pub open spec fn select_piv_apdu() -> Seq<u8> {
    seq![0x00u8, 0xA4, 0x04, 0x00, 0x09, 0xA0, 0x00, 0x00, 0x03, 0x08, 0x00, 0x00, 0x10, 0x00, 0x01]
}

/// SELECT of the OATH applet (AID `A0 00 00 05 27 21 01 01`).
pub open spec fn select_oath_apdu() -> Seq<u8> {
    seq![0x00u8, 0xA4, 0x04, 0x00, 0x08, 0xA0, 0x00, 0x00, 0x05, 0x27, 0x21, 0x01, 0x01]
}

/// SELECT of the OTP applet (AID `A0 00 00 05 27 20 01 01`).
pub open spec fn select_otp_apdu() -> Seq<u8> {
    seq![0x00u8, 0xA4, 0x04, 0x00, 0x08, 0xA0, 0x00, 0x00, 0x05, 0x27, 0x20, 0x01, 0x01]
}

/// SELECT of the OpenPGP applet (AID `D2 76 00 01 24 01`).
pub open spec fn select_openpgp_apdu() -> Seq<u8> {
    seq![0x00u8, 0xA4, 0x04, 0x00, 0x06, 0xD2, 0x76, 0x00, 0x01, 0x24, 0x01]
}

/// The SELECT command of an applet.
#[derive(Debug, Clone, Copy, PartialEq, Eq, Structural)]
pub enum Applet {
    Piv,
    Oath,
    Otp,
    OpenPgp,
}

/// The SELECT command for `applet`.
pub fn select_apdu(applet: Applet) -> (r: Vec<u8>)
    ensures
        r@ == (match applet {
            Applet::Piv => select_piv_apdu(),
            Applet::Oath => select_oath_apdu(),
            Applet::Otp => select_otp_apdu(),
            Applet::OpenPgp => select_openpgp_apdu(),
        }),
{
    let r = match applet {
        Applet::Piv => vec![0x00u8, 0xA4, 0x04, 0x00, 0x09, 0xA0, 0x00, 0x00, 0x03, 0x08, 0x00, 0x00, 0x10, 0x00, 0x01],
        Applet::Oath => vec![0x00u8, 0xA4, 0x04, 0x00, 0x08, 0xA0, 0x00, 0x00, 0x05, 0x27, 0x21, 0x01, 0x01],
        Applet::Otp => vec![0x00u8, 0xA4, 0x04, 0x00, 0x08, 0xA0, 0x00, 0x00, 0x05, 0x27, 0x20, 0x01, 0x01],
        Applet::OpenPgp => vec![0x00u8, 0xA4, 0x04, 0x00, 0x06, 0xD2, 0x76, 0x00, 0x01, 0x24, 0x01],
    };
    assert(r@ =~= (match applet {
        Applet::Piv => select_piv_apdu(),
        Applet::Oath => select_oath_apdu(),
        Applet::Otp => select_otp_apdu(),
        Applet::OpenPgp => select_openpgp_apdu(),
    }));
    r
}

/// VERIFY of the Admin PIN (PW3): `00 20 00 83`, the length byte (the length
/// modulo 256) and the PIN bytes.
pub open spec fn verify_admin_pin_apdu_spec(pin: Seq<u8>) -> Seq<u8> {
    seq![0x00u8, 0x20, 0x00, 0x83, (pin.len() % 256) as u8] + pin
}

/// VERIFY of the Admin PIN with these PIN bytes.
pub fn verify_admin_pin_apdu(pin: &[u8]) -> (r: Vec<u8>)
    ensures
        r@ == verify_admin_pin_apdu_spec(pin@),
{
    let n = pin.len();
    let lc = (n % 256) as u8;
    let mut r = vec![0x00u8, 0x20, 0x00, 0x83, lc];
    let mut i: usize = 0;
    while i < n
        invariant
            n == pin@.len(),
            i <= n,
            r@ == seq![0x00u8, 0x20, 0x00, 0x83, lc] + pin@.subrange(0, i as int),
        decreases n - i,
    {
        r.push(pin[i]);
        i = i + 1;
        assert(r@ =~= seq![0x00u8, 0x20, 0x00, 0x83, lc] + pin@.subrange(0, i as int));
    }
    assert(pin@.subrange(0, n as int) =~= pin@);
    r
}

} // verus!
