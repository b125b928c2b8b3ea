use yubitui::model::oath::{OathReadError, OathReadSession, OathReadStep, OathType};
use yubitui::tui::oath::{
    account_added_message, advance_step, mask_secret, AddAccountEffect, AddAccountState,
    AddAccountStep, OathTuiState,
};
use yubitui::tui::widgets::pin_input::{PinInputAction, PinInputState, PinKey};

#[test]
fn oath_read_password_required() {
    let (mut s, select) = OathReadSession::start([0; 8]);
    assert_eq!(select[1], 0xA4);
    match s.step(&[0x69, 0x82]) {
        OathReadStep::Done(state) => {
            assert!(state.password_required);
            assert!(state.credentials.is_empty());
        }
        other => panic!("unexpected {other:?}"),
    }
}

#[test]
fn oath_read_lists_and_calculates() {
    let (mut s, _) = OathReadSession::start([0, 0, 0, 0, 0, 0, 0, 1]);
    match s.step(&[0x90, 0x00]) {
        OathReadStep::Transmit(a) => assert_eq!(a, vec![0x00, 0xA1, 0x00, 0x00]),
        other => panic!("unexpected {other:?}"),
    }
    let mut list = vec![0x71, 0x04, 0x21, b'a', b':', b'b'];
    list.extend_from_slice(&[0x90, 0x00]);
    match s.step(&list) {
        OathReadStep::Transmit(a) => assert_eq!(&a[..7], &[0x00, 0xA4, 0x00, 0x01, 10, 0x74, 8]),
        other => panic!("unexpected {other:?}"),
    }
    let calc = vec![0x71, 0x03, b'a', b':', b'b', 0x76, 0x04, 0x00, 0x01, 0xE2, 0x40, 0x90, 0x00];
    match s.step(&calc) {
        OathReadStep::Done(state) => {
            assert!(!state.password_required);
            assert_eq!(state.credentials.len(), 1);
            assert_eq!(state.credentials[0].name, "a:b");
            assert_eq!(state.credentials[0].code.as_deref(), Some("123456"));
        }
        other => panic!("unexpected {other:?}"),
    }
    assert!(matches!(s.step(&[0x90, 0x00]), OathReadStep::Failed(OathReadError::SessionOver)));
    let (mut s, _) = OathReadSession::start([0; 8]);
    assert!(matches!(s.step(&[0x6A, 0x82]), OathReadStep::Failed(OathReadError::SelectFailed(0x6A82))));
}

#[test]
fn add_account_wizard_flow() {
    let mut st = AddAccountState::default();
    let mut input = "GitHub".to_string();
    assert!(matches!(advance_step(&mut st, &mut input), AddAccountEffect::Redraw));
    assert_eq!(st.step, AddAccountStep::AccountName);
    assert!(input.is_empty());
    advance_step(&mut st, &mut input);
    assert_eq!(st.step, AddAccountStep::AccountName);
    assert_eq!(st.error_message.as_deref(), Some("Account name cannot be empty."));
    input = "alice".to_string();
    advance_step(&mut st, &mut input);
    assert_eq!(st.step, AddAccountStep::Secret);
    assert!(st.error_message.is_none());
    input = "JBSWY3DP".to_string();
    advance_step(&mut st, &mut input);
    advance_step(&mut st, &mut input);
    assert_eq!(st.step, AddAccountStep::Confirm);
    match advance_step(&mut st, &mut input) {
        AddAccountEffect::PutCredential { name, secret, oath_type } => {
            assert_eq!(name, "GitHub:alice");
            assert_eq!(secret, "JBSWY3DP");
            assert_eq!(oath_type, OathType::Totp);
        }
        other => panic!("unexpected {other:?}"),
    }
    assert_eq!(account_added_message("x"), "Account 'x' added successfully.");
    assert_eq!(OathTuiState::default().selected_index, 0);
}

#[test]
fn secret_masking() {
    assert_eq!(mask_secret("JBSWY3DP"), "JBSW●●●●");
    assert_eq!(mask_secret("ABC"), "●●●");
    assert_eq!(mask_secret(""), "");
}

#[test]
fn pin_form_keys() {
    let mut f = PinInputState::new("Change PIN", &["Current", "New", "Confirm"]);
    assert!(f.fields[0].active && !f.fields[1].active);
    f.handle_key(PinKey::Char('1'));
    f.handle_key(PinKey::Char(' '));
    f.handle_key(PinKey::Char('2'));
    assert_eq!(f.fields[0].value, "12");
    f.handle_key(PinKey::Backspace);
    assert_eq!(f.fields[0].value, "1");
    assert_eq!(f.handle_key(PinKey::Enter), PinInputAction::Continue);
    assert_eq!(f.active_field, 1);
    f.handle_key(PinKey::Tab);
    assert_eq!(f.active_field, 2);
    f.handle_key(PinKey::Tab);
    assert_eq!(f.active_field, 2);
    assert_eq!(f.handle_key(PinKey::Enter), PinInputAction::Continue);
    assert_eq!(f.error_message.as_deref(), Some("All fields required"));
    f.set_optional(1);
    f.handle_key(PinKey::Char('9'));
    assert!(f.error_message.is_none());
    assert_eq!(f.handle_key(PinKey::Enter), PinInputAction::Submit);
    assert_eq!(f.values(), vec!["1".to_string(), String::new(), "9".to_string()]);
    f.handle_key(PinKey::BackTab);
    assert!(f.fields[1].active && !f.fields[2].active);
    assert_eq!(f.handle_key(PinKey::Esc), PinInputAction::Cancel);
}
