//! The data model of a YubiKey and its applications.
pub mod app_state;
pub mod card;
pub mod click_region;
pub mod fido2;
pub mod mock;
pub mod oath;
pub mod onboarding;
pub mod openpgp;
pub mod openpgp_delete;
pub mod otp;
pub mod pin;
pub mod pin_operations;
pub mod piv;
pub mod piv_delete;
pub mod ssh;
pub mod touch_policy;

use vstd::prelude::*;
use vstd::string::*;
use crate::text::{decimal, push_decimal};

verus! {

/// A firmware version.
#[derive(Debug, Clone, Copy, PartialEq, Eq, Structural)]
pub struct Version {
    pub major: u8,
    pub minor: u8,
    pub patch: u8,
}

impl Version {
    /// `major.minor.patch` in decimal.
    pub open spec fn text(self) -> Seq<char> {
        decimal(self.major as nat) + "."@ + decimal(self.minor as nat) + "."@ + decimal(
            self.patch as nat,
        )
    }

    /// Display text: `major.minor.patch`.
    pub fn to_string(&self) -> (s: String)
        ensures
            s@ == self.text(),
    {
        let mut s = String::new();
        push_decimal(&mut s, self.major as u64);
        s.append(".");
        push_decimal(&mut s, self.minor as u64);
        s.append(".");
        push_decimal(&mut s, self.patch as u64);
        s
    }
}

/// YubiKey models.
#[derive(Debug, Clone, Copy, PartialEq, Eq, Structural)]
pub enum Model {
    YubiKey5,
    YubiKey5C,
    YubiKey5CNFC,
    YubiKey5Ci,
    YubiKey5CNano,
    YubiKey5Nano,
    YubiKey5NFC,
    YubiKey4,
    YubiKey4C,
    YubiKey4Nano,
    YubiKeyNeo,
    Unknown,
}

impl Model {
    /// The YubiKey 5 series.
    pub open spec fn is_series5(self) -> bool {
        match self {
            Model::YubiKey5 | Model::YubiKey5C | Model::YubiKey5CNFC | Model::YubiKey5Ci
            | Model::YubiKey5CNano | Model::YubiKey5Nano | Model::YubiKey5NFC => true,
            _ => false,
        }
    }

    /// Every known model has the OpenPGP applet.
    pub fn supports_openpgp(&self) -> (b: bool)
        ensures
            b == (*self != Model::Unknown),
    {
        !matches!(self, Model::Unknown)
    }

    /// Every known model has the PIV applet.
    pub fn supports_piv(&self) -> (b: bool)
        ensures
            b == (*self != Model::Unknown),
    {
        !matches!(self, Model::Unknown)
    }

    /// Only the YubiKey 5 series speaks FIDO2.
    pub fn supports_fido2(&self) -> (b: bool)
        ensures
            b == self.is_series5(),
    {
        match self {
            Model::YubiKey5 | Model::YubiKey5C | Model::YubiKey5CNFC | Model::YubiKey5Ci
            | Model::YubiKey5CNano | Model::YubiKey5Nano | Model::YubiKey5NFC => true,
            _ => false,
        }
    }

    /// The largest RSA key size: 4096 bits on the 5 and 4 series, 2048 on the
    /// NEO and on an unknown model.
    pub fn max_rsa_bits(&self) -> (bits: u32)
        ensures
            bits == (match *self {
                Model::YubiKeyNeo | Model::Unknown => 2048u32,
                _ => 4096u32,
            }),
    {
        match self {
            Model::YubiKeyNeo | Model::Unknown => 2048,
            _ => 4096,
        }
    }

    /// The display name of the model.
    pub open spec fn name(self) -> Seq<char> {
        match self {
            Model::YubiKey5 => "YubiKey 5"@,
            Model::YubiKey5C => "YubiKey 5C"@,
            Model::YubiKey5CNFC => "YubiKey 5C NFC"@,
            Model::YubiKey5Ci => "YubiKey 5Ci"@,
            Model::YubiKey5CNano => "YubiKey 5C Nano"@,
            Model::YubiKey5Nano => "YubiKey 5 Nano"@,
            Model::YubiKey5NFC => "YubiKey 5 NFC"@,
            Model::YubiKey4 => "YubiKey 4"@,
            Model::YubiKey4C => "YubiKey 4C"@,
            Model::YubiKey4Nano => "YubiKey 4 Nano"@,
            Model::YubiKeyNeo => "YubiKey NEO"@,
            Model::Unknown => "Unknown YubiKey"@,
        }
    }

    /// Display text of the model.
    pub fn to_string(&self) -> (s: String)
        ensures
            s@ == self.name(),
    {
        let t = match self {
            Model::YubiKey5 => "YubiKey 5",
            Model::YubiKey5C => "YubiKey 5C",
            Model::YubiKey5CNFC => "YubiKey 5C NFC",
            Model::YubiKey5Ci => "YubiKey 5Ci",
            Model::YubiKey5CNano => "YubiKey 5C Nano",
            Model::YubiKey5Nano => "YubiKey 5 Nano",
            Model::YubiKey5NFC => "YubiKey 5 NFC",
            Model::YubiKey4 => "YubiKey 4",
            Model::YubiKey4C => "YubiKey 4C",
            Model::YubiKey4Nano => "YubiKey 4 Nano",
            Model::YubiKeyNeo => "YubiKey NEO",
            Model::Unknown => "Unknown YubiKey",
        };
        String::from_str(t)
    }
}

/// Connector form factors.
#[derive(Debug, Clone, Copy, PartialEq, Eq, Structural)]
pub enum FormFactor {
    UsbA,
    UsbC,
    Nano,
    Unknown,
}

impl FormFactor {
    /// The display name of the form factor.
    pub open spec fn name(self) -> Seq<char> {
        match self {
            FormFactor::UsbA => "USB-A"@,
            FormFactor::UsbC => "USB-C"@,
            FormFactor::Nano => "Nano"@,
            FormFactor::Unknown => "Unknown"@,
        }
    }

    /// Display text of the form factor.
    pub fn to_string(&self) -> (s: String)
        ensures
            s@ == self.name(),
    {
        let t = match self {
            FormFactor::UsbA => "USB-A",
            FormFactor::UsbC => "USB-C",
            FormFactor::Nano => "Nano",
            FormFactor::Unknown => "Unknown",
        };
        String::from_str(t)
    }
}

/// Identity of one device.
#[derive(Debug, Clone, Copy, PartialEq, Eq, Structural)]
pub struct YubiKeyInfo {
    pub serial: u32,
    pub version: Version,
    pub model: Model,
    pub form_factor: FormFactor,
}

impl YubiKeyInfo {
    /// `model (SN: serial, FW: version, Form: form factor)`.
    pub open spec fn text(self) -> Seq<char> {
        self.model.name() + " (SN: "@ + decimal(self.serial as nat) + ", FW: "@
            + self.version.text() + ", Form: "@ + self.form_factor.name() + ")"@
    }

    /// Display text of the device identity.
    pub fn to_string(&self) -> (s: String)
        ensures
            s@ == self.text(),
    {
        let mut s = self.model.to_string();
        s.append(" (SN: ");
        push_decimal(&mut s, self.serial as u64);
        s.append(", FW: ");
        let v = self.version.to_string();
        s.append(v.as_str());
        s.append(", Form: ");
        let f = self.form_factor.to_string();
        s.append(f.as_str());
        s.append(")");
        s
    }
}

/// Everything known about one device.
#[derive(Debug)]
pub struct YubiKeyState {
    pub info: YubiKeyInfo,
    pub openpgp: Option<openpgp::OpenPgpState>,
    pub oath: Option<oath::OathState>,
    pub piv: Option<piv::PivState>,
    pub fido2: Option<fido2::Fido2State>,
    pub otp: Option<otp::OtpState>,
    pub pin_status: pin::PinStatus,
    pub touch_policies: Option<touch_policy::TouchPolicies>,
}

} // verus!
