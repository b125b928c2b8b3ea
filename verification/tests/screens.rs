use yubitui::diagnostics::Diagnostics;
use yubitui::model::app_state::{AppState, Screen};
use yubitui::model::click_region::{ClickAction, ClickRegion, Region};
use yubitui::model::mock::mock_yubikey_states;
use yubitui::model::pin::PinStatus;
use yubitui::model::touch_policy::TouchPolicy as SlotPolicy;
use yubitui::tui::dashboard::{DashboardAction, DashboardNav, DashboardScreen};
use yubitui::tui::keys::{touch_policy_from_index, touch_slot_display, touch_slot_name, KeyGenStep, KeyGenWizard};
use yubitui::tui::pin::{available_unblock_paths, UnblockPath};
use yubitui::tui::ssh::{SshScreen, SshState};
use yubitui::tui::theme::{next_theme_name, DEFAULT_THEME};
use yubitui::tui::wizard::TouchPolicy;

#[test]
fn region_contains_saturates() {
    let r = Region { x: 2, y: 3, w: 4, h: 1 };
    assert!(r.contains(2, 3));
    assert!(r.contains(5, 3));
    assert!(!r.contains(6, 3));
    assert!(!r.contains(2, 4));
    let edge = Region { x: 65530, y: 0, w: 100, h: 1 };
    assert!(edge.contains(65534, 0));
    assert!(!edge.contains(65535, 0));
    let c = ClickRegion { region: r, action: ClickAction::Dashboard(DashboardAction::Refresh) };
    assert!(matches!(c.action, ClickAction::Dashboard(DashboardAction::Refresh)));
}

#[test]
fn app_state_default_and_dashboard_navigation() {
    let s = AppState::default();
    assert_eq!(s.current_screen, Screen::Dashboard);
    assert!(s.yubikey_states.is_empty());
    let d = DashboardScreen::new(s, Diagnostics::default());
    assert_eq!(d.on_action("nav_1"), DashboardNav::Keys);
    assert_eq!(d.on_action("nav_7"), DashboardNav::Oath { key_present: false });
    assert_eq!(d.on_action("open_menu"), DashboardNav::Help);
    assert_eq!(d.on_action("switch_key"), DashboardNav::Stay);
    let mut s = AppState::default();
    s.yubikey_states = mock_yubikey_states();
    let d = DashboardScreen::new(s, Diagnostics::default());
    assert_eq!(d.on_action("nav_9"), DashboardNav::Otp { key_present: true });
    assert_eq!(d.on_action("quit"), DashboardNav::Quit);
}

#[test]
fn keygen_wizard_and_touch_rows() {
    let w = KeyGenWizard::new("2025-01-01");
    assert_eq!(w.step, KeyGenStep::Algorithm);
    assert_eq!(w.backup_path, "~/yubikey-backup-2025-01-01.gpg");
    assert!(!w.backup);
    assert_eq!(touch_slot_name(2), "aut");
    assert_eq!(touch_slot_name(9), "sig");
    assert_eq!(touch_slot_display(3), "Attestation");
    assert_eq!(touch_policy_from_index(4), SlotPolicy::CachedFixed);
    assert_eq!(touch_policy_from_index(7), SlotPolicy::Off);
}

#[test]
fn wizard_touch_policy_texts() {
    assert_eq!(TouchPolicy::Cached.label(), "Touch required (cached for 15 s)");
    assert!(TouchPolicy::Always.description().starts_with("You must physically touch"));
}

#[test]
fn theme_cycling() {
    assert_eq!(next_theme_name("tokyo-night"), "nord");
    assert_eq!(next_theme_name("catppuccin-mocha"), "tokyo-night");
    assert_eq!(next_theme_name("unknown"), "nord");
    assert_eq!(DEFAULT_THEME, "tokyo-night");
}

#[test]
fn ssh_state_default() {
    let s = SshState::default();
    assert_eq!(s.screen, SshScreen::Main);
    assert!(s.message.is_none() && !s.agent_running);
}

#[test]
fn unblock_paths_by_counters() {
    let mut p = PinStatus {
        user_pin_retries: 0,
        admin_pin_retries: 3,
        reset_code_retries: 3,
        user_pin_blocked: true,
        admin_pin_blocked: false,
    };
    assert_eq!(available_unblock_paths(&p), vec![UnblockPath::ResetCode, UnblockPath::AdminPin]);
    p.admin_pin_retries = 0;
    p.reset_code_retries = 0;
    assert_eq!(available_unblock_paths(&p), vec![UnblockPath::FactoryReset]);
}

#[test]
fn mock_device_contents() {
    let v = mock_yubikey_states();
    assert_eq!(v.len(), 1);
    assert_eq!(v[0].info.serial, 12345678);
    assert_eq!(v[0].oath.as_ref().unwrap().credentials.len(), 3);
    assert_eq!(v[0].piv.as_ref().unwrap().slots[0].slot, "9a");
    let tp = v[0].touch_policies.as_ref().unwrap();
    assert_eq!(tp.signature, SlotPolicy::On);
    assert_eq!(tp.encryption, SlotPolicy::Off);
}

#[test]
fn dashboard_status_card() {
    let mut app = AppState::default();
    let s = DashboardScreen::new(app, Diagnostics::default());
    assert_eq!(s.status_lines(), vec!["No YubiKey detected", "Insert your YubiKey and press R to refresh"]);
    app = AppState::default();
    app.yubikey_states = mock_yubikey_states();
    app.yubikey_states.extend(mock_yubikey_states());
    app.yubikey_states[1].pin_status.user_pin_retries = 1;
    app.yubikey_states[1].pin_status.admin_pin_blocked = true;
    app.yubikey_states[1].openpgp = None;
    app.selected_yubikey_idx = 1;
    assert_eq!(app.yubikey_count(), 2);
    assert_eq!(app.yubikey_state().unwrap().pin_status.user_pin_retries, 1);
    let s = DashboardScreen::new(app, Diagnostics::default());
    assert_eq!(
        s.status_lines(),
        vec![
            "Key 2/2 (Tab to switch)",
            "YubiKey 5 NFC USB-A | FW 5.4.3 | SN 12345678",
            "PIN 1/3 [LOW]  Admin 3/3 [BLOCKED]",
        ]
    );
    let mut one = AppState::default();
    one.yubikey_states = mock_yubikey_states();
    let s = DashboardScreen::new(one, Diagnostics::default());
    let l = s.status_lines();
    assert_eq!(l.len(), 3);
    assert_eq!(l[1], "PIN 3/3 [OK]  Admin 3/3 [OK]");
    assert_eq!(l[2], "Keys: Sign [SET]  Encrypt [SET]  Auth [SET]");
    let mut none = AppState::default();
    none.selected_yubikey_idx = 3;
    assert!(none.yubikey_state().is_none());
}
