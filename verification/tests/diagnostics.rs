use yubitui::tui::diagnostics::{CardLevel, DiagnosticsAction, DiagnosticsNav, DiagnosticsScreen, HostOs};
use yubitui::diagnostics::{
    gpg_agent_status, pcscd_status, scdaemon_status, ssh_agent_status, Diagnostics,
};

#[test]
fn gpg_agent_status_reads_socket_and_version() {
    let dirs = b"sysconfdir:/etc/gnupg\nagent-socket:/run/user/1000/gnupg/S.gpg-agent\n";
    let version = b"gpg (GnuPG) 2.4.3\nlibgcrypt 1.10.3\n";
    let s = gpg_agent_status(Some(dirs), Some(version));
    assert!(s.running);
    assert_eq!(s.socket_path.as_deref(), Some("/run/user/1000/gnupg/S.gpg-agent"));
    assert_eq!(s.version.as_deref(), Some("gpg (GnuPG) 2.4.3"));
    let s = gpg_agent_status(None, Some(&[0xFF, 0xFE]));
    assert!(!s.running);
    assert!(s.socket_path.is_none());
    assert!(s.version.is_none());
}

#[test]
fn ssh_agent_status_compares_sockets() {
    let s = ssh_agent_status(
        Some("/run/gpg/S.gpg-agent.ssh".to_string()),
        Some("enable-ssh-support\n"),
        Some((true, b"/run/gpg/S.gpg-agent.ssh\n")),
    );
    assert!(s.configured && s.gpg_agent_has_ssh_support && s.ssh_auth_sock_correct);
    let s = ssh_agent_status(Some("/tmp/other".to_string()), None, Some((true, b"/run/x\n")));
    assert!(!s.configured && !s.gpg_agent_has_ssh_support && !s.ssh_auth_sock_correct);
    assert_eq!(s.expected_sock.as_deref(), Some("/run/x"));
    let s = ssh_agent_status(None, Some("x"), Some((false, b"/run/x")));
    assert!(s.expected_sock.is_none());
}

#[test]
fn diagnostics_flags() {
    let d = Diagnostics::default();
    assert!(!d.has_errors());
    assert!(!d.has_warnings());
    let d = Diagnostics::run(
        gpg_agent_status(Some(b""), None),
        scdaemon_status(false),
        pcscd_status(true, Some(b"pcsc-lite 2.0\n")),
        ssh_agent_status(None, None, None),
    );
    assert!(d.has_errors());
    assert!(d.has_warnings());
    assert_eq!(d.pcscd.version.as_deref(), Some("pcsc-lite 2.0"));
    assert_eq!(d.scdaemon.issues.as_deref(), Some("scdaemon.conf not found"));
}

#[test]
fn diagnostics_report_text() {
    let d = Diagnostics::default();
    let expected = "System Diagnostics:\n==================\n\nPC/SC Daemon (pcscd):\n  Status: ✅ Running\n  Version: mock\n\nGPG Agent:\n  Status: ✅ Running\n  Version: mock\n\nScdaemon:\n  Configured: ✅ Yes\n\nSSH Agent Integration:\n  Configured: ✅ Yes\n";
    assert_eq!(d.to_string(), expected);
    let mut d = Diagnostics::default();
    d.ssh_agent = ssh_agent_status(Some("/a".to_string()), Some(""), Some((true, b"/b")));
    let text = d.to_string();
    assert!(text.ends_with("  Configured: ⚠️  No\n  Issues: enable-ssh-support not found in ~/.gnupg/gpg-agent.conf\n  Issues: SSH_AUTH_SOCK not pointing to GPG agent\n    Current: /a\n    Expected: /b\n    Add to ~/.bashrc or ~/.zshrc:\n      export SSH_AUTH_SOCK=\"/b\"\n"));
}

#[test]
fn diagnostics_screen_cards() {
    let d = Diagnostics::run(
        gpg_agent_status(Some(b"agent-socket:/run/a\n"), Some(b"gpg 2.4\n")),
        scdaemon_status(false),
        pcscd_status(false, None),
        ssh_agent_status(Some("/run/s".to_string()), None, None),
    );
    let s = DiagnosticsScreen::new(d);
    let cards = s.cards(HostOs::Linux);
    assert_eq!(cards.len(), 4);
    assert_eq!(cards[0].title, "PC/SC Daemon");
    assert_eq!(cards[0].status, "✗ Down");
    assert_eq!(cards[0].detail, "sudo systemctl start pcscd");
    assert_eq!(cards[0].level, CardLevel::Error);
    assert_eq!(s.cards(HostOs::MacOs)[0].detail, "brew services start pcsc-lite");
    assert_eq!(s.cards(HostOs::Other)[0].detail, "Not running");
    assert_eq!(cards[1].status, "✓ Running");
    assert_eq!(cards[1].detail, "gpg 2.4");
    assert_eq!(cards[1].level, CardLevel::Good);
    assert_eq!(cards[2].status, "○ Not configured");
    assert_eq!(cards[2].detail, "Create ~/.gnupg/scdaemon.conf");
    assert_eq!(cards[2].level, CardLevel::Warn);
    assert_eq!(cards[3].detail, "Add enable-ssh-support to gpg-agent.conf");
    assert_eq!(s.extra_lines(), vec!["GPG socket: /run/a", "Scdaemon issues: scdaemon.conf not found"]);
    assert_eq!(s.on_action(DiagnosticsAction::Help), DiagnosticsNav::Help);
    assert_eq!(s.on_action(DiagnosticsAction::RunDiagnostics), DiagnosticsNav::Back);
}
