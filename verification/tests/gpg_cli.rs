use yubitui::utils::gpg_cli::parse_pin_retries;

#[test]
fn pin_retries_from_card_status() {
    let status = "Reader ...........: Yubico\nPIN retry counter : 3 0 3\nSignature counter : 4\n";
    assert_eq!(parse_pin_retries(status), Some((3, 0, 3)));
    assert_eq!(parse_pin_retries("PIN retry counter : 3 3\n"), None);
    assert_eq!(parse_pin_retries("PIN retry counter : 1 x 2 +3\n"), Some((1, 2, 3)));
    assert_eq!(parse_pin_retries("PIN retry counter : a:b\nPIN retry counter : 2 2 2\n"), Some((2, 2, 2)));
    assert_eq!(parse_pin_retries(""), None);
}
