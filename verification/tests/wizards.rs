use yubitui::diagnostics::{gpg_agent_status, pcscd_status, scdaemon_status, ssh_agent_status, Diagnostics};
use yubitui::model::app_state::AppState;
use yubitui::model::mock::mock_yubikey_states;
use yubitui::model::piv::PivState;
use yubitui::tui::keys::KeyGenStep;
use yubitui::tui::onboarding::{OnboardingAction, OnboardingNav, OnboardingScreen};
use yubitui::tui::ssh::{AgentKeysOutcome, SshAction, SshCommand, SshScreen, SshState, SshStep, SshWizardScreen};
use yubitui::tui::wizard::{
    progress_bar, InitialSetupWizardScreen, SetupAction, SetupNav, SshKeyWizardAction, SshKeyWizardNav,
    SshTouchPolicyWizardScreen, TouchPolicy, WizardMenuAction, WizardMenuNav, WizardMenuScreen,
};

#[test]
fn progress_bar_marks_steps() {
    assert_eq!(progress_bar(0, 4), "[----] Step 0/4");
    assert_eq!(progress_bar(2, 4), "[##--] Step 2/4");
    assert_eq!(progress_bar(3, 3), "[###] Step 3/3");
    assert_eq!(progress_bar(5, 3), "[###] Step 5/3");
}

#[test]
fn wizard_menu_routes() {
    let m = WizardMenuScreen::new(None);
    assert_eq!(m.on_action(WizardMenuAction::Back), WizardMenuNav::Close);
    assert_eq!(m.on_action(WizardMenuAction::InitialSetup), WizardMenuNav::InitialSetup);
    assert_eq!(m.on_action(WizardMenuAction::SshWizard), WizardMenuNav::SshWizard);
    assert_eq!(m.on_action(WizardMenuAction::TouchPolicy), WizardMenuNav::TouchPolicy);
}

#[test]
fn initial_setup_walks_steps() {
    let mut w = InitialSetupWizardScreen::new(Some(mock_yubikey_states().remove(0)));
    assert_eq!(w.progress(), "[----] Step 0/4");
    assert_eq!(w.on_action(SetupAction::Open), SetupNav::Stay);
    assert_eq!(w.on_action(SetupAction::Prev), SetupNav::Stay);
    assert_eq!(w.step, 0);
    assert_eq!(w.on_action(SetupAction::Next), SetupNav::Stay);
    assert_eq!(w.step, 1);
    assert_eq!(w.on_action(SetupAction::Open), SetupNav::OpenFido2);
    assert_eq!(w.on_action(SetupAction::Skip), SetupNav::Stay);
    assert_eq!(w.on_action(SetupAction::Open), SetupNav::OpenOath);
    assert_eq!(w.on_action(SetupAction::Next), SetupNav::Stay);
    assert_eq!(w.on_action(SetupAction::Open), SetupNav::OpenSshWizard);
    assert_eq!(w.on_action(SetupAction::Prev), SetupNav::Stay);
    assert_eq!(w.step, 2);
    assert_eq!(w.on_action(SetupAction::Next), SetupNav::Stay);
    assert_eq!(w.on_action(SetupAction::Next), SetupNav::Stay);
    assert_eq!(w.step, 4);
    assert_eq!(w.progress(), "[####] Step 4/4");
    assert_eq!(w.on_action(SetupAction::Next), SetupNav::Close);
    assert_eq!(w.step, 4);
    assert_eq!(w.on_action(SetupAction::Cancel), SetupNav::Close);
}

#[test]
fn initial_setup_summary_of_mock_device() {
    let w = InitialSetupWizardScreen::new(Some(mock_yubikey_states().remove(0)));
    let s = w.summary();
    assert_eq!(s.pin_state, Some(true));
    assert_eq!(s.credential_count, 3);
    assert!(!s.password_required);
    assert!(s.slot_9a_occupied);

    let none = InitialSetupWizardScreen::new(None).summary();
    assert_eq!(none.pin_state, None);
    assert_eq!(none.credential_count, 0);
    assert!(!none.slot_9a_occupied);

    let mut yk = mock_yubikey_states().remove(0);
    yk.piv = Some(PivState { slots: vec![] });
    let empty = InitialSetupWizardScreen::new(Some(yk)).summary();
    assert!(!empty.slot_9a_occupied);
}

#[test]
fn ssh_key_wizard_policy_and_launch() {
    let mut w = SshTouchPolicyWizardScreen::new(Some(mock_yubikey_states().remove(0)));
    assert_eq!(w.policy_idx, 1);
    assert_eq!(w.policy(), TouchPolicy::Always);
    assert_eq!(w.policy().label(), "Touch required for every use");
    assert!(matches!(w.on_action(SshKeyWizardAction::PolicyDown), SshKeyWizardNav::Stay));
    assert!(matches!(w.on_action(SshKeyWizardAction::PolicyDown), SshKeyWizardNav::Stay));
    assert_eq!(w.policy_idx, 2);
    assert_eq!(w.policy(), TouchPolicy::Cached);
    w.on_action(SshKeyWizardAction::PolicyUp);
    w.on_action(SshKeyWizardAction::PolicyUp);
    w.on_action(SshKeyWizardAction::PolicyUp);
    assert_eq!(w.policy_idx, 0);
    assert_eq!(w.policy(), TouchPolicy::Never);
    assert_eq!(w.slot_9a_index(), Some(0));
    assert_eq!(w.progress(), "[---] Step 0/3");
    w.on_action(SshKeyWizardAction::Next);
    assert_eq!(w.step, 1);
    // The policy only moves on the first step.
    w.on_action(SshKeyWizardAction::PolicyDown);
    assert_eq!(w.policy_idx, 0);
    w.on_action(SshKeyWizardAction::Next);
    assert_eq!(w.step, 2);
    match w.on_action(SshKeyWizardAction::Next) {
        SshKeyWizardNav::LaunchKeyGen(k) => {
            assert_eq!(k.step, KeyGenStep::Algorithm);
            assert!(k.backup_path.starts_with("~/yubikey-backup-"));
            assert!(k.backup_path.ends_with(".gpg"));
            assert_eq!(k.backup_path.len(), "~/yubikey-backup-".len() + 10 + ".gpg".len());
        }
        other => panic!("unexpected {:?}", other),
    }
    assert_eq!(w.step, 2);
    assert!(matches!(w.on_action(SshKeyWizardAction::Back), SshKeyWizardNav::Stay));
    assert!(matches!(w.on_action(SshKeyWizardAction::Back), SshKeyWizardNav::Stay));
    assert!(matches!(w.on_action(SshKeyWizardAction::Back), SshKeyWizardNav::Close));
    assert_eq!(SshTouchPolicyWizardScreen::new(None).slot_9a_index(), None);
}

#[test]
fn ssh_wizard_steps_and_back() {
    let mut s = SshWizardScreen::new(SshState::default());
    assert!(matches!(s.on_action(SshAction::Back), SshCommand::Close));
    assert!(matches!(s.on_action(SshAction::Execute), SshCommand::Stay));
    s.on_action(SshAction::Step(1));
    assert_eq!(s.state.screen, SshScreen::EnableSSH);
    assert!(matches!(s.on_action(SshAction::Execute), SshCommand::Run(SshStep::EnableSsh)));
    s.on_action(SshAction::Step(9));
    assert_eq!(s.state.screen, SshScreen::EnableSSH);
    s.on_action(SshAction::Step(2));
    assert!(matches!(s.on_action(SshAction::Execute), SshCommand::Run(SshStep::ConfigureShell)));
    s.on_action(SshAction::Step(3));
    assert!(matches!(s.on_action(SshAction::Execute), SshCommand::Run(SshStep::RestartAgent)));
    s.on_action(SshAction::Step(4));
    assert!(matches!(s.on_action(SshAction::Execute), SshCommand::ListAgentKeys));
    s.state.message = Some("old".to_string());
    assert!(matches!(s.on_action(SshAction::Back), SshCommand::Stay));
    assert_eq!(s.state.screen, SshScreen::Main);
    assert_eq!(s.state.message, None);
    assert!(matches!(s.on_action(SshAction::Refresh), SshCommand::Close));
    assert!(matches!(s.on_action(SshAction::Help), SshCommand::Help));
}

#[test]
fn ssh_wizard_connection_test_needs_both_fields() {
    let mut s = SshWizardScreen::new(SshState::default());
    s.on_action(SshAction::Step(5));
    s.state.test_conn_user = "alice".to_string();
    assert!(matches!(s.on_action(SshAction::Execute), SshCommand::Stay));
    assert_eq!(s.state.message.as_deref(), Some("Enter both username and hostname"));
    assert_eq!(s.state.screen, SshScreen::TestConnection);
    s.state.test_conn_host = "example.org".to_string();
    match s.on_action(SshAction::Execute) {
        SshCommand::TestConnection { user, host } => {
            assert_eq!(user, "alice");
            assert_eq!(host, "example.org");
        }
        other => panic!("unexpected {:?}", other),
    }
    s.on_step_result(SshStep::TestConnection, Err("timed out".to_string()));
    assert_eq!(s.state.message.as_deref(), Some("Error: timed out"));
    assert_eq!(s.state.screen, SshScreen::Main);
}

#[test]
fn ssh_wizard_step_results_set_flags() {
    let mut s = SshWizardScreen::new(SshState::default());
    s.on_action(SshAction::Step(1));
    s.on_step_result(SshStep::EnableSsh, Ok("enabled".to_string()));
    assert!(s.state.ssh_enabled);
    assert!(!s.state.shell_configured);
    assert_eq!(s.state.message.as_deref(), Some("enabled"));
    assert_eq!(s.state.screen, SshScreen::Main);
    s.on_step_result(SshStep::ConfigureShell, Err("no shell".to_string()));
    assert!(!s.state.shell_configured);
    assert_eq!(s.state.message.as_deref(), Some("Error: no shell"));
    s.on_step_result(SshStep::RestartAgent, Ok("restarted".to_string()));
    assert!(s.state.agent_running);
}

#[test]
fn ssh_wizard_agent_keys_messages() {
    let mut s = SshWizardScreen::new(SshState::default());
    s.on_agent_keys(AgentKeysOutcome::Ran {
        success: true,
        exit_code: Some(0),
        stdout: b"  ssh-ed25519 AAAA cardno:1\n".to_vec(),
        stderr: vec![],
    });
    assert_eq!(s.state.message.as_deref(), Some("ssh-ed25519 AAAA cardno:1"));
    s.on_agent_keys(AgentKeysOutcome::Ran { success: true, exit_code: Some(0), stdout: b"\n".to_vec(), stderr: vec![] });
    assert_eq!(
        s.state.message.as_deref(),
        Some("ssh-add -L returned no keys. Insert YubiKey and try again.")
    );
    s.on_agent_keys(AgentKeysOutcome::Ran {
        success: false,
        exit_code: Some(1),
        stdout: vec![],
        stderr: b"The agent has no identities.\n".to_vec(),
    });
    assert_eq!(s.state.message.as_deref(), Some("ssh-add -L failed (exit 1): The agent has no identities."));
    s.on_agent_keys(AgentKeysOutcome::Ran { success: false, exit_code: None, stdout: vec![], stderr: vec![] });
    assert_eq!(s.state.message.as_deref(), Some("ssh-add -L failed (exit -1): "));
    s.on_agent_keys(AgentKeysOutcome::NotRun("not found".to_string()));
    assert_eq!(s.state.message.as_deref(), Some("Failed to run ssh-add: not found"));
    assert_eq!(s.state.screen, SshScreen::Main);
}

fn diagnostics() -> Diagnostics {
    Diagnostics::run(
        gpg_agent_status(None, None),
        scdaemon_status(false),
        pcscd_status(false, None),
        ssh_agent_status(None, None, None),
    )
}

#[test]
fn onboarding_checklist_and_dismiss() {
    let yk = mock_yubikey_states().remove(0);
    let s = OnboardingScreen::new(yk);
    let c = s.checklist();
    assert!(c.fido2_pin_set && c.has_oath && c.has_piv && c.has_openpgp);
    assert_eq!(
        s.checklist_lines(),
        vec![
            "  [x] FIDO2 PIN is set",
            "  [x] OATH accounts configured",
            "  [x] PIV certificates present",
            "  [x] OpenPGP keys configured",
        ]
    );
    assert_eq!(s.on_action(OnboardingAction::Dismiss), OnboardingNav::Close);

    let mut fresh = mock_yubikey_states().remove(0);
    fresh.openpgp = None;
    fresh.piv = Some(PivState { slots: vec![] });
    if let Some(f) = fresh.fido2.as_mut() {
        f.pin_is_set = false;
    }
    if let Some(o) = fresh.oath.as_mut() {
        o.credentials.clear();
    }
    let s = OnboardingScreen::new_startup(fresh, AppState::default(), diagnostics());
    assert_eq!(
        s.checklist_lines(),
        vec![
            "  [ ] Set a FIDO2 PIN — required for passkey (WebAuthn) login",
            "  [ ] Add OATH accounts — store TOTP/HOTP codes on hardware",
            "  [ ] Configure PIV — smart card certificates for login/VPN",
            "  [ ] Set up OpenPGP keys — git signing, email encryption, SSH",
        ]
    );
    assert_eq!(s.on_action(OnboardingAction::Dismiss), OnboardingNav::OpenDashboard);
}
