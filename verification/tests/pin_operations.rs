use yubitui::model::pin_operations::{
    activate_outcome, change_user_pin_programmatic, classify_status_line, factory_reset_apdus,
    gpg_pin_args, terminate_outcome, unblock_user_pin_programmatic, GpgInput, GpgStatusKind,
};

fn lines(v: &[GpgInput]) -> Vec<String> {
    v.iter()
        .map(|i| match i {
            GpgInput::WriteLine(l) => l.clone(),
            GpgInput::Close => "<close>".to_string(),
        })
        .collect()
}

#[test]
fn pin_dialogue_success() {
    let (mut s, first) = change_user_pin_programmatic("123456", "654321");
    assert_eq!(lines(&first), vec!["admin", "passwd", "1"]);
    assert_eq!(lines(&s.on_status(GpgStatusKind::GetHidden, "")), vec!["123456"]);
    assert_eq!(lines(&s.on_status(GpgStatusKind::GetHidden, "")), vec!["654321"]);
    assert_eq!(lines(&s.on_status(GpgStatusKind::GetHidden, "")), vec!["654321", "q", "<close>"]);
    assert!(s.on_status(GpgStatusKind::GetHidden, "").is_empty());
    s.on_status(GpgStatusKind::Silent, "GOT_IT");
    let r = s.finish(true);
    assert!(r.success);
    assert_eq!(r.messages, vec!["Operation completed successfully".to_string()]);
}

#[test]
fn pin_dialogue_error_closes_input() {
    let (mut s, _) = unblock_user_pin_programmatic("12345678", "111111");
    s.on_status(GpgStatusKind::GetHidden, "");
    assert_eq!(lines(&s.on_status(GpgStatusKind::ScOpFailure, "SC_OP_FAILURE 2")), vec!["<close>"]);
    assert!(s.on_status(GpgStatusKind::GetHidden, "").is_empty());
    let r = s.finish(false);
    assert!(!r.success);
    assert_eq!(r.messages, vec!["SC_OP_FAILURE 2".to_string()]);
}

#[test]
fn pin_dialogue_failed_exit_and_write() {
    let (mut s, _) = change_user_pin_programmatic("1", "2");
    s.on_pin_write_failed("broken pipe");
    let r = s.finish(true);
    assert!(!r.success);
    assert_eq!(r.messages, vec!["Failed to send PIN: broken pipe".to_string()]);
    let (s, _) = change_user_pin_programmatic("1", "2");
    let r = s.finish(false);
    assert!(!r.success);
    assert_eq!(r.messages, vec!["Operation failed (gpg exited with non-zero status)".to_string()]);
}

#[test]
fn status_lines_and_args() {
    assert_eq!(classify_status_line("[GNUPG:] GET_HIDDEN passphrase.enter").0, GpgStatusKind::GetHidden);
    assert_eq!(classify_status_line("[GNUPG:] SC_OP_SUCCESS").0, GpgStatusKind::ScOpSuccess);
    assert_eq!(classify_status_line("[GNUPG:] GOT_IT").0, GpgStatusKind::Silent);
    let (k, m) = classify_status_line("[GNUPG:] ERROR scd 100663406");
    assert_eq!(k, GpgStatusKind::Error);
    assert_eq!(m, "ERROR scd 100663406");
    assert_eq!(classify_status_line("gpg: OpenPGP card").0, GpgStatusKind::Silent);
    assert_eq!(gpg_pin_args()[1], "--card-edit");
}

#[test]
fn factory_reset_outcomes() {
    let (t, a) = factory_reset_apdus();
    assert_eq!(t, vec![0x00, 0xE6, 0x00, 0x00]);
    assert_eq!(a, vec![0x00, 0x44, 0x00, 0x00]);
    assert!(terminate_outcome(0x9000).is_ok());
    assert_eq!(
        terminate_outcome(0x6982).unwrap_err(),
        "TERMINATE DF failed (SW 6982). Factory reset requires Admin PIN to be fully blocked (0 retries remaining)."
    );
    assert!(activate_outcome(0x9000).unwrap().contains("User PIN:  123456"));
    assert_eq!(activate_outcome(0x6A80).unwrap_err(), "ACTIVATE FILE failed (SW 6A80)");
}
