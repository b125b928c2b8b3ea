//! The first-launch checklist for a device in its factory-default state.
use vstd::prelude::*;
use vstd::string::*;
use crate::diagnostics::Diagnostics;
use crate::model::app_state::AppState;
use crate::model::YubiKeyState;
use crate::model::onboarding::factory_default;
use crate::tui::keys::push_line;
use crate::model::pin_operations::string_views;

verus! {

/// Which features of the device are already set up.
#[derive(Debug, Clone, Copy, PartialEq, Eq, Structural)]
pub struct OnboardingChecklist {
    pub fido2_pin_set: bool,
    pub has_oath: bool,
    pub has_piv: bool,
    pub has_openpgp: bool,
}

/// The checklist of a device: a FIDO2 PIN, OATH accounts, PIV slots and OpenPGP keys.
pub open spec fn checklist_of(yk: YubiKeyState) -> OnboardingChecklist {
    OnboardingChecklist {
        fido2_pin_set: match yk.fido2 {
            Some(f) => f.pin_is_set,
            None => false,
        },
        has_oath: match yk.oath {
            Some(o) => o.credentials@.len() > 0,
            None => false,
        },
        has_piv: match yk.piv {
            Some(p) => p.slots@.len() > 0,
            None => false,
        },
        has_openpgp: match yk.openpgp {
            Some(o) => o.signature_key is Some || o.encryption_key is Some
                || o.authentication_key is Some,
            None => false,
        },
    }
}

/// The four checklist lines, ticked where the feature is set up.
pub open spec fn checklist_text(c: OnboardingChecklist) -> Seq<Seq<char>> {
    seq![
        if c.fido2_pin_set {
            "  [x] FIDO2 PIN is set"@
        } else {
            "  [ ] Set a FIDO2 PIN — required for passkey (WebAuthn) login"@
        },
        if c.has_oath {
            "  [x] OATH accounts configured"@
        } else {
            "  [ ] Add OATH accounts — store TOTP/HOTP codes on hardware"@
        },
        if c.has_piv {
            "  [x] PIV certificates present"@
        } else {
            "  [ ] Configure PIV — smart card certificates for login/VPN"@
        },
        if c.has_openpgp {
            "  [x] OpenPGP keys configured"@
        } else {
            "  [ ] Set up OpenPGP keys — git signing, email encryption, SSH"@
        },
    ]
}

/// On a device that looks factory-fresh, the checklist leaves the FIDO2 PIN,
/// OATH and PIV items open.
pub proof fn lemma_fresh_device_items_open(yk: YubiKeyState)
    requires
        factory_default(yk),
    ensures
        !checklist_of(yk).fido2_pin_set,
        !checklist_of(yk).has_oath,
        !checklist_of(yk).has_piv,
{
}

/// The onboarding screen's action (Escape or Enter).
#[derive(Debug, Clone, Copy, PartialEq, Eq, Structural)]
pub enum OnboardingAction {
    Dismiss,
}

/// Where dismissing the checklist leads.
#[derive(Debug, Clone, Copy, PartialEq, Eq, Structural)]
pub enum OnboardingNav {
    /// Close the checklist.
    Close,
    /// Open the dashboard on the screen's start-up state and diagnostics.
    OpenDashboard,
}

/// The onboarding checklist. At start-up it is the first screen and carries
/// what the dashboard opens on.
#[derive(Debug)]
pub struct OnboardingScreen {
    pub yk: YubiKeyState,
    pub startup: Option<(AppState, Diagnostics)>,
}

impl OnboardingScreen {
    /// The checklist shown over another screen.
    pub fn new(yk: YubiKeyState) -> (s: Self)
        ensures
            s.yk == yk,
            s.startup is None,
    {
        OnboardingScreen { yk, startup: None }
    }

    /// The checklist as the first screen, leading to the dashboard.
    pub fn new_startup(yk: YubiKeyState, app_state: AppState, diagnostics: Diagnostics) -> (s: Self)
        ensures
            s.yk == yk,
            s.startup == Some((app_state, diagnostics)),
    {
        OnboardingScreen { yk, startup: Some((app_state, diagnostics)) }
    }

    /// What is set up on the device.
    pub fn checklist(&self) -> (c: OnboardingChecklist)
        ensures
            c == checklist_of(self.yk),
    {
        let fido2_pin_set = match &self.yk.fido2 {
            Some(f) => f.pin_is_set,
            None => false,
        };
        let has_oath = match &self.yk.oath {
            Some(o) => o.credentials.len() > 0,
            None => false,
        };
        let has_piv = match &self.yk.piv {
            Some(p) => p.slots.len() > 0,
            None => false,
        };
        let has_openpgp = match &self.yk.openpgp {
            Some(o) => o.signature_key.is_some() || o.encryption_key.is_some()
                || o.authentication_key.is_some(),
            None => false,
        };
        OnboardingChecklist { fido2_pin_set, has_oath, has_piv, has_openpgp }
    }

    /// The checklist lines.
    pub fn checklist_lines(&self) -> (v: Vec<String>)
        ensures
            string_views(v@) == checklist_text(checklist_of(self.yk)),
    {
        let c = self.checklist();
        let mut v: Vec<String> = Vec::new();
        push_line(&mut v, String::from_str(if c.fido2_pin_set {
            "  [x] FIDO2 PIN is set"
        } else {
            "  [ ] Set a FIDO2 PIN — required for passkey (WebAuthn) login"
        }));
        push_line(&mut v, String::from_str(if c.has_oath {
            "  [x] OATH accounts configured"
        } else {
            "  [ ] Add OATH accounts — store TOTP/HOTP codes on hardware"
        }));
        push_line(&mut v, String::from_str(if c.has_piv {
            "  [x] PIV certificates present"
        } else {
            "  [ ] Configure PIV — smart card certificates for login/VPN"
        }));
        push_line(&mut v, String::from_str(if c.has_openpgp {
            "  [x] OpenPGP keys configured"
        } else {
            "  [ ] Set up OpenPGP keys — git signing, email encryption, SSH"
        }));
        assert(string_views(v@) =~= checklist_text(c));
        v
    }

    /// Dismissing opens the dashboard at start-up, else closes the checklist.
    pub fn on_action(&self, action: OnboardingAction) -> (nav: OnboardingNav)
        ensures
            nav == if self.startup is Some {
                OnboardingNav::OpenDashboard
            } else {
                OnboardingNav::Close
            },
    {
        match action {
            OnboardingAction::Dismiss => {
                if self.startup.is_some() {
                    OnboardingNav::OpenDashboard
                } else {
                    OnboardingNav::Close
                }
            },
        }
    }
}

} // verus!
