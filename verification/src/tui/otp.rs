//! OTP screens: the slot list, the choice of what to program into a slot, and
//! the static password entry.
use vstd::prelude::*;
use vstd::string::*;
use vstd::utf8::*;
use crate::model::otp::{OtpConfig, OtpCredentialType, OtpSlotStatus, OtpState};
use crate::text::{decimal, push_char, push_decimal};
use crate::tui::widgets::pin_input::{edit, edited, PinKey};

verus! {

/// The OTP list's key bindings.
#[derive(Debug, Clone, Copy, PartialEq, Eq, Structural)]
pub enum OtpAction {
    Back,
    Refresh,
    Help,
    ConfigureSlot1,
    ConfigureSlot2,
    DeleteSlot1,
    DeleteSlot2,
}

/// Where the OTP list sends the user.
#[derive(Debug)]
pub enum OtpNav {
    /// Close the list (a refresh reopens it from the card).
    Back,
    Help,
    Configure(OtpConfigScreen),
    /// Ask before the slot is erased, with this title and warning.
    ConfirmDelete { slot: u8, title: String, body: String },
}

/// The OTP slot list.
#[derive(Debug)]
pub struct OtpScreen {
    pub otp_state: Option<OtpState>,
    pub key_present: bool,
}

/// The warning before slot 1 or 2 is erased.
pub open spec fn delete_slot_body(slot: u8) -> Seq<char> {
    if slot == 1 {
        "This will erase the credential in Slot 1 (short touch).\nThe slot will become empty."@
    } else {
        "This will erase the credential in Slot 2 (long touch).\nThe slot will become empty."@
    }
}

impl OtpScreen {
    /// The list for a state, without a key known to be present.
    pub fn new(otp_state: Option<OtpState>) -> (s: Self)
        ensures
            s.otp_state == otp_state,
            !s.key_present,
    {
        OtpScreen { otp_state, key_present: false }
    }

    /// The list for a state, with a key present.
    pub fn new_with_key(otp_state: Option<OtpState>) -> (s: Self)
        ensures
            s.otp_state == otp_state,
            s.key_present,
    {
        OtpScreen { otp_state, key_present: true }
    }

    /// An action on the list: configure or erase slot 1 or 2, help, or back.
    pub fn on_action(&self, action: OtpAction) -> (nav: OtpNav)
        ensures
            match action {
                OtpAction::Back | OtpAction::Refresh => nav is Back,
                OtpAction::Help => nav is Help,
                OtpAction::ConfigureSlot1 => nav matches OtpNav::Configure(c) && c.slot == 1,
                OtpAction::ConfigureSlot2 => nav matches OtpNav::Configure(c) && c.slot == 2,
                OtpAction::DeleteSlot1 => nav matches OtpNav::ConfirmDelete { slot, title, body } && slot == 1
                    && title@ == "Delete OTP Slot 1"@ && body@ == delete_slot_body(1),
                OtpAction::DeleteSlot2 => nav matches OtpNav::ConfirmDelete { slot, title, body } && slot == 2
                    && title@ == "Delete OTP Slot 2"@ && body@ == delete_slot_body(2),
            },
    {
        match action {
            OtpAction::Back | OtpAction::Refresh => OtpNav::Back,
            OtpAction::Help => OtpNav::Help,
            OtpAction::ConfigureSlot1 => OtpNav::Configure(OtpConfigScreen::new(1)),
            OtpAction::ConfigureSlot2 => OtpNav::Configure(OtpConfigScreen::new(2)),
            OtpAction::DeleteSlot1 => OtpNav::ConfirmDelete {
                slot: 1,
                title: String::from_str("Delete OTP Slot 1"),
                body: String::from_str(
                    "This will erase the credential in Slot 1 (short touch).\nThe slot will become empty.",
                ),
            },
            OtpAction::DeleteSlot2 => OtpNav::ConfirmDelete {
                slot: 2,
                title: String::from_str("Delete OTP Slot 2"),
                body: String::from_str(
                    "This will erase the credential in Slot 2 (long touch).\nThe slot will become empty.",
                ),
            },
        }
    }
}

/// What the slot configuration screen's choices are.
#[derive(Debug, Clone, Copy, PartialEq, Eq, Structural)]
pub enum OtpConfigAction {
    Back,
    Hmac,
    YubicoOtp,
    StaticPw,
}

/// Where the slot configuration screens send the user.
#[derive(Debug)]
pub enum OtpConfigNav {
    Stay,
    Back,
    /// Program this configuration into its slot.
    Program(OtpConfig),
    /// Ask for the static password first.
    StaticPassword(OtpStaticPwScreen),
    /// Close the screens and show a message.
    Done { title: String, body: String },
}

/// The screen that picks what to program into a slot.
#[derive(Debug)]
pub struct OtpConfigScreen {
    pub slot: u8,
}

/// The message once a slot has been programmed.
pub open spec fn programmed_message(slot: u8, kind: OtpCredentialType) -> Seq<char> {
    "OTP Slot "@ + decimal(slot as nat) + " programmed with "@ + kind.label() + "."@
}

impl OtpConfigScreen {
    /// The choices for a slot.
    pub fn new(slot: u8) -> (s: Self)
        ensures
            s.slot == slot,
    {
        OtpConfigScreen { slot }
    }

    /// HMAC-SHA1 and Yubico OTP are programmed at once (no touch, no secret
    /// given); a static password is asked for first.
    pub fn on_action(&self, action: OtpConfigAction) -> (nav: OtpConfigNav)
        ensures
            match action {
                OtpConfigAction::Back => nav is Back,
                OtpConfigAction::Hmac => nav matches OtpConfigNav::Program(c) && c.slot == self.slot
                    && c.credential_type == OtpCredentialType::ChallengeResponse && !c.require_touch
                    && c.static_password is None && c.hmac_secret is None,
                OtpConfigAction::YubicoOtp => nav matches OtpConfigNav::Program(c) && c.slot == self.slot
                    && c.credential_type == OtpCredentialType::YubicoOtp && !c.require_touch
                    && c.static_password is None && c.hmac_secret is None,
                OtpConfigAction::StaticPw => nav matches OtpConfigNav::StaticPassword(p) && p.slot == self.slot
                    && p.password@.len() == 0 && p.error is None,
            },
    {
        match action {
            OtpConfigAction::Back => OtpConfigNav::Back,
            OtpConfigAction::Hmac => OtpConfigNav::Program(OtpConfig::new(self.slot, OtpCredentialType::ChallengeResponse)),
            OtpConfigAction::YubicoOtp => OtpConfigNav::Program(OtpConfig::new(self.slot, OtpCredentialType::YubicoOtp)),
            OtpConfigAction::StaticPw => OtpConfigNav::StaticPassword(OtpStaticPwScreen::new(self.slot)),
        }
    }

    /// The message once programming has run, given its result (the error's text
    /// where it failed).
    pub fn program_result(&self, kind: OtpCredentialType, result: Result<(), String>) -> (nav: OtpConfigNav)
        ensures
            match result {
                Ok(_) => nav matches OtpConfigNav::Done { title, body } && title@ == "Slot Configured"@
                    && body@ == programmed_message(self.slot, kind),
                Err(e) => nav matches OtpConfigNav::Done { title, body } && title@ == "Configuration Failed"@
                    && body@ == "Failed to program slot "@ + decimal(self.slot as nat) + ": "@ + e@,
            },
    {
        match result {
            Ok(_) => {
                let mut body = String::from_str("OTP Slot ");
                push_decimal(&mut body, self.slot as u64);
                body.append(" programmed with ");
                let k = kind.to_string();
                body.append(k.as_str());
                body.append(".");
                OtpConfigNav::Done { title: String::from_str("Slot Configured"), body }
            },
            Err(e) => {
                let mut body = String::from_str("Failed to program slot ");
                push_decimal(&mut body, self.slot as u64);
                body.append(": ");
                body.append(e.as_str());
                OtpConfigNav::Done { title: String::from_str("Configuration Failed"), body }
            },
        }
    }
}

/// The static password entry for a slot (at most 38 bytes are typed).
#[derive(Debug)]
pub struct OtpStaticPwScreen {
    pub slot: u8,
    pub password: String,
    pub error: Option<String>,
}

impl OtpStaticPwScreen {
    /// An empty entry for a slot.
    pub fn new(slot: u8) -> (s: Self)
        ensures
            s.slot == slot,
            s.password@.len() == 0,
            s.error is None,
    {
        OtpStaticPwScreen { slot, password: String::new(), error: None }
    }

    /// Checks the password: an empty one is refused; else the slot is programmed
    /// with it.
    pub fn submit(&mut self) -> (nav: OtpConfigNav)
        ensures
            final(self).slot == old(self).slot,
            final(self).password@ == old(self).password@,
            if old(self).password@.len() == 0 {
                nav is Stay && (final(self).error matches Some(e) && e@ == "Password cannot be empty."@)
            } else {
                &&& nav matches OtpConfigNav::Program(c)
                &&& c.slot == old(self).slot && c.credential_type == OtpCredentialType::StaticPassword
                &&& !c.require_touch && c.hmac_secret is None
                &&& c.static_password matches Some(p) && p@ == old(self).password@
                &&& final(self).error == old(self).error
            },
    {
        if self.password.as_str().unicode_len() == 0 {
            self.error = Some(String::from_str("Password cannot be empty."));
            return OtpConfigNav::Stay;
        }
        let mut config = OtpConfig::new(self.slot, OtpCredentialType::StaticPassword);
        config.static_password = Some(self.password.clone());
        OtpConfigNav::Program(config)
    }

    /// Edits the password (a character only while it has fewer than 38 bytes);
    /// enter submits; escape closes.
    pub fn on_key(&mut self, key: PinKey) -> (nav: OtpConfigNav)
        ensures
            final(self).slot == old(self).slot,
            match key {
                PinKey::Esc => nav is Back && final(self).password@ == old(self).password@,
                PinKey::Enter => final(self).password@ == old(self).password@,
                PinKey::Char(c) => nav is Stay && final(self).error == old(self).error
                    && final(self).password@ == if encode_utf8(old(self).password@).len() < 38 {
                    old(self).password@.push(c)
                } else {
                    old(self).password@
                },
                _ => nav is Stay && final(self).error == old(self).error
                    && final(self).password@ == edited(old(self).password@, key),
            },
    {
        match key {
            PinKey::Esc => OtpConfigNav::Back,
            PinKey::Enter => self.submit(),
            PinKey::Char(c) => {
                if self.password.as_str().as_bytes().len() < 38 {
                    push_char(&mut self.password, c);
                }
                OtpConfigNav::Stay
            },
            _ => {
                edit(&mut self.password, key);
                OtpConfigNav::Stay
            },
        }
    }

    /// Programming's result: done, or its error shown with the password emptied.
    pub fn on_result(&mut self, result: Result<(), String>) -> (nav: OtpConfigNav)
        ensures
            match result {
                Ok(_) => nav matches OtpConfigNav::Done { title, body } && title@ == "Slot Configured"@
                    && body@ == programmed_message(old(self).slot, OtpCredentialType::StaticPassword),
                Err(e) => nav is Stay && final(self).password@.len() == 0
                    && (final(self).error matches Some(m) && m@ == e@),
            },
    {
        match result {
            Ok(_) => {
                let mut body = String::from_str("OTP Slot ");
                push_decimal(&mut body, self.slot as u64);
                body.append(" programmed with Static Password.");
                proof {
                    reveal_strlit(" programmed with Static Password.");
                    reveal_strlit(" programmed with ");
                    reveal_strlit("Static Password");
                    reveal_strlit(".");
                }
                assert(body@ =~= programmed_message(self.slot, OtpCredentialType::StaticPassword));
                OtpConfigNav::Done { title: String::from_str("Slot Configured"), body }
            },
            Err(e) => {
                self.error = Some(e);
                self.password = String::new();
                OtpConfigNav::Stay
            },
        }
    }
}

/// A row of the slot table: status, slot, configuration.
pub open spec fn otp_slot_row(status: OtpSlotStatus, touch: bool, slot: Seq<char>) -> (Seq<char>, Seq<char>, Seq<char>) {
    match status {
        OtpSlotStatus::Occupied => (
            "✓ Set"@,
            slot,
            if touch { "Configured (touch required)"@ } else { "Configured"@ },
        ),
        OtpSlotStatus::Empty => ("○ Empty"@, slot, "Empty"@),
    }
}

fn otp_slot_row_of(status: &OtpSlotStatus, touch: bool, slot: &str) -> (r: (String, String, String))
    ensures
        (r.0@, r.1@, r.2@) == otp_slot_row(*status, touch, slot@),
{
    match status {
        OtpSlotStatus::Occupied => (
            String::from_str("✓ Set"),
            String::from_str(slot),
            String::from_str(if touch { "Configured (touch required)" } else { "Configured" }),
        ),
        OtpSlotStatus::Empty => (String::from_str("○ Empty"), String::from_str(slot), String::from_str("Empty")),
    }
}

impl OtpScreen {
    /// The slot table: slot 1 (short touch) then slot 2 (long touch); without a
    /// state, the two lines that say why.
    pub fn rows(&self) -> (r: Result<((String, String, String), (String, String, String)), (String, String)>)
        ensures
            match self.otp_state {
                Some(st) => r matches Ok((a, b)) && (a.0@, a.1@, a.2@) == otp_slot_row(
                    st.slot1,
                    st.slot1_touch,
                    "Slot 1 (short touch)"@,
                ) && (b.0@, b.1@, b.2@) == otp_slot_row(st.slot2, st.slot2_touch, "Slot 2 (long touch)"@),
                None => r matches Err((l1, l2)) && if self.key_present {
                    l1@ == "OTP status unavailable"@ && l2@ == "Could not read OTP slots via PC/SC on this hardware."@
                } else {
                    l1@ == "No YubiKey Detected"@ && l2@ == "Insert your YubiKey and press R to refresh."@
                },
            },
    {
        match &self.otp_state {
            Some(st) => Ok((
                otp_slot_row_of(&st.slot1, st.slot1_touch, "Slot 1 (short touch)"),
                otp_slot_row_of(&st.slot2, st.slot2_touch, "Slot 2 (long touch)"),
            )),
            None => if self.key_present {
                Err((
                    String::from_str("OTP status unavailable"),
                    String::from_str("Could not read OTP slots via PC/SC on this hardware."),
                ))
            } else {
                Err((
                    String::from_str("No YubiKey Detected"),
                    String::from_str("Insert your YubiKey and press R to refresh."),
                ))
            },
        }
    }
}

} // verus!
