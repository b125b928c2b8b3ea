use yubitui::tui::fido2::{ResetConfirmAction, ResetConfirmNav, ResetConfirmScreen};
use yubitui::tui::glossary::{GlossaryScreen, GlossaryScreenAction};
use yubitui::tui::help::{HelpScreen, HelpScreenAction};
use yubitui::tui::pin::{FactoryResetAction, FactoryResetNav, FactoryResetScreen};
use yubitui::tui::widgets::nav_button::NavButton;
use yubitui::tui::widgets::pin_input::{PinInputWidget, PinWidgetAction};
use yubitui::tui::widgets::popup::{ConfirmAction, ConfirmScreen, PopupAction, PopupScreen};
use yubitui::utils::config::{gnupg_home, gpg_agent_conf, scdaemon_conf, GnupgProbe};
use yubitui::utils::gpg_cli::{gpg_command_output, GpgRun};

#[test]
fn popup_closes() {
    let mut p = PopupScreen::new("Title".to_string(), "Body".to_string());
    assert!(!p.closed);
    p.on_action(PopupAction::Close);
    assert!(p.closed);
    assert_eq!(p.title, "Title");
    assert_eq!(p.body, "Body");
}

#[test]
fn confirm_screen_header_and_answers() {
    let mut c = ConfirmScreen::new("Delete".to_string(), "Sure?".to_string(), true);
    assert_eq!(c.header_text(), "WARNING: Delete");
    c.on_action(ConfirmAction::Confirm);
    assert!(c.confirmed);
    c.on_action(ConfirmAction::Cancel);
    assert!(!c.confirmed);
    let plain = ConfirmScreen::new("Apply".to_string(), "Go?".to_string(), false);
    assert_eq!(plain.header_text(), "Apply");
}

#[test]
fn reset_confirm_screen_leads_to_guidance() {
    let r = ResetConfirmScreen::new();
    assert_eq!(r.inner.header_text(), "WARNING: Reset FIDO2 Applet");
    assert!(r.inner.message.starts_with("WARNING: This will permanently delete ALL passkeys and the FIDO2 PIN.\n\n"));
    assert!(r.inner.message.ends_with("Are you sure you want to proceed?"));
    assert_eq!(r.on_action(ResetConfirmAction::Confirm), ResetConfirmNav::StartGuidance);
    assert_eq!(r.on_action(ResetConfirmAction::Cancel), ResetConfirmNav::Close);
}

#[test]
fn factory_reset_answers() {
    let f = FactoryResetScreen::new();
    assert_eq!(f.on_action(FactoryResetAction::Cancel), FactoryResetNav::Cancelled);
    assert_eq!(f.on_action(FactoryResetAction::ConfirmReset), FactoryResetNav::Confirmed);
}

#[test]
fn help_and_glossary_text() {
    let h = HelpScreen::new();
    assert_eq!(h.title(), "yubitui -- YubiKey Management TUI");
    assert!(h.markdown().starts_with("# yubitui -- YubiKey Management TUI\n\n## Global Keybindings"));
    assert!(h.markdown().contains("- `d` Delete / reset selected slot\n"));
    assert!(h.on_action(HelpScreenAction::Back));
    let g = GlossaryScreen::new();
    assert_eq!(g.title(), "Protocol Glossary");
    assert!(g.markdown().starts_with("# Protocol Glossary\n"));
    assert!(g.markdown().contains("## TOTP (Time-Based One-Time Password)"));
    assert!(g.on_action(GlossaryScreenAction::Back));
}

#[test]
fn nav_button_sends_its_action() {
    let b = NavButton::new("Open".to_string(), "open_keys".to_string());
    assert_eq!(b.on_pressed().action, "open_keys");
    assert_eq!(b.label, "Open");
}

#[test]
fn pin_input_widget_error_and_cancel() {
    let mut w = PinInputWidget::new("Change PIN", &["Current PIN", "New PIN"]);
    assert_eq!(w.field_labels, vec!["Current PIN", "New PIN"]);
    assert_eq!(w.error_line(), None);
    w.error_message = Some("All fields required".to_string());
    assert_eq!(w.error_line().as_deref(), Some("Error: All fields required"));
    w.on_action(PinWidgetAction::Cancel);
    assert!(w.cancelled);
}

fn probe() -> GnupgProbe {
    GnupgProbe { env_gnupghome: None, gpgconf: None, windows_gnupg: None, home_dir: None }
}

#[test]
fn gnupg_home_priorities() {
    assert_eq!(gnupg_home(&probe()), Err("Could not determine home directory".to_string()));
    let mut p = probe();
    p.home_dir = Some("/home/u".to_string());
    let h = gnupg_home(&p).unwrap();
    assert!(h == "/home/u/.gnupg" || h == "/home/u\\.gnupg");
    p.windows_gnupg = Some("C:\\Users\\u\\AppData\\Roaming\\gnupg".to_string());
    assert_eq!(gnupg_home(&p).unwrap(), "C:\\Users\\u\\AppData\\Roaming\\gnupg");
    p.gpgconf = Some((true, b"  \n".to_vec()));
    assert_eq!(gnupg_home(&p).unwrap(), "C:\\Users\\u\\AppData\\Roaming\\gnupg");
    p.gpgconf = Some((false, b"/opt/gnupg\n".to_vec()));
    assert_eq!(gnupg_home(&p).unwrap(), "C:\\Users\\u\\AppData\\Roaming\\gnupg");
    p.gpgconf = Some((true, b"/opt/gnupg\n".to_vec()));
    assert_eq!(gnupg_home(&p).unwrap(), "/opt/gnupg");
    p.env_gnupghome = Some("/tmp/g".to_string());
    assert_eq!(gnupg_home(&p).unwrap(), "/tmp/g");
    let a = gpg_agent_conf(&p).unwrap();
    assert!(a == "/tmp/g/gpg-agent.conf" || a == "/tmp/g\\gpg-agent.conf");
    let s = scdaemon_conf(&p).unwrap();
    assert!(s == "/tmp/g/scdaemon.conf" || s == "/tmp/g\\scdaemon.conf");
    p.env_gnupghome = Some("/tmp/g/".to_string());
    assert_eq!(gpg_agent_conf(&p).unwrap(), "/tmp/g/gpg-agent.conf");
    assert_eq!(scdaemon_conf(&probe()), Err("Could not determine home directory".to_string()));
    let mut d = probe();
    d.home_dir = Some("1:".to_string());
    let h = gnupg_home(&d).unwrap();
    assert!(h == "1:/.gnupg" || h == "1:\\.gnupg");
}

#[test]
fn gpg_command_output_cases() {
    let ok = GpgRun { success: true, stdout: b"Reader ...: Yubico\n".to_vec(), stderr: vec![] };
    assert_eq!(gpg_command_output(ok), Ok("Reader ...: Yubico\n".to_string()));
    let failed = GpgRun { success: false, stdout: vec![], stderr: b"gpg: selecting card failed".to_vec() };
    assert_eq!(gpg_command_output(failed), Err("GPG command failed: gpg: selecting card failed".to_string()));
    let bad = GpgRun { success: true, stdout: vec![0xff, 0xfe], stderr: vec![] };
    assert!(gpg_command_output(bad).is_err());
}
