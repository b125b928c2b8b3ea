use yubitui::model::oath::{OathAlgorithm, OathType};
use yubitui::tui::oath::{parse_otpauth_uri, percent_decode};

#[test]
fn parse_uri_totp_full() {
    let uri = "otpauth://totp/GitHub:user%40example.com?secret=JBSWY3DPEHPK3PXP&issuer=GitHub&algorithm=SHA1&digits=6&period=30";
    let p = parse_otpauth_uri(uri).unwrap();
    assert_eq!(p.name, "GitHub:user@example.com");
    assert_eq!(p.secret, "JBSWY3DPEHPK3PXP");
    assert_eq!(p.oath_type, OathType::Totp);
    assert_eq!(p.algorithm, OathAlgorithm::Sha1);
}

#[test]
fn parse_uri_sha256_algorithm() {
    let uri = "otpauth://totp/Acme:alice?secret=JBSWY3DPEHPK3PXP&algorithm=SHA256";
    let p = parse_otpauth_uri(uri).unwrap();
    assert_eq!(p.algorithm, OathAlgorithm::Sha256);
}

#[test]
fn parse_uri_sha512_algorithm() {
    let uri = "otpauth://totp/Acme:alice?secret=JBSWY3DPEHPK3PXP&algorithm=SHA512";
    let p = parse_otpauth_uri(uri).unwrap();
    assert_eq!(p.algorithm, OathAlgorithm::Sha512);
}

#[test]
fn parse_uri_hotp() {
    let uri = "otpauth://hotp/Example?secret=JBSWY3DPEHPK3PXP";
    let p = parse_otpauth_uri(uri).unwrap();
    assert_eq!(p.name, "Example");
    assert_eq!(p.oath_type, OathType::Hotp);
}

#[test]
fn parse_uri_label_only_no_issuer_param() {
    let uri = "otpauth://totp/Acme:alice?secret=JBSWY3DPEHPK3PXP";
    let p = parse_otpauth_uri(uri).unwrap();
    assert_eq!(p.name, "Acme:alice");
    assert_eq!(p.issuer, "Acme");
    assert_eq!(p.account, "alice");
}

#[test]
fn parse_uri_missing_secret() {
    let uri = "otpauth://totp/GitHub?issuer=GitHub";
    assert!(parse_otpauth_uri(uri).is_err());
}

#[test]
fn parse_uri_bad_prefix() {
    let uri = "otpauth2://totp/GitHub?secret=JBSWY3DPEHPK3PXP";
    assert!(parse_otpauth_uri(uri).is_err());
}

#[test]
fn parse_uri_unknown_type() {
    let uri = "otpauth://steam/GitHub?secret=JBSWY3DPEHPK3PXP";
    assert!(parse_otpauth_uri(uri).is_err());
}

#[test]
fn parse_uri_lowercase_secret_uppercased() {
    let uri = "otpauth://totp/X?secret=jbswy3dpehpk3pxp";
    let p = parse_otpauth_uri(uri).unwrap();
    assert_eq!(p.secret, "JBSWY3DPEHPK3PXP");
}

#[test]
fn parse_uri_error_messages() {
    assert_eq!(
        parse_otpauth_uri("otpauth://Steam/X?secret=AA").unwrap_err(),
        "Unknown OATH type 'steam' (expected totp or hotp)"
    );
    assert_eq!(
        parse_otpauth_uri("otpauth://totp?secret=AA").unwrap_err(),
        "URI must contain a label after the type"
    );
    assert_eq!(
        parse_otpauth_uri("otpauth://totp/X?secret=").unwrap_err(),
        "Secret key cannot be empty"
    );
    assert_eq!(
        parse_otpauth_uri("otpauth://totp/X?secret=AB1").unwrap_err(),
        "Secret must be Base32 encoded (A-Z, 2-7, =)"
    );
    assert_eq!(
        parse_otpauth_uri("otpauth://totp/%20?secret=AB").unwrap_err(),
        "Could not determine credential name from URI"
    );
}

#[test]
fn parse_uri_issuer_param_wins() {
    let p = parse_otpauth_uri("  otpauth://TOTP/Old:%20bob%20?issuer=New&secret=ab&algorithm=sha-512  ").unwrap();
    assert_eq!(p.issuer, "New");
    assert_eq!(p.account, "bob");
    assert_eq!(p.name, "New:bob");
    assert_eq!(p.secret, "AB");
    assert_eq!(p.algorithm, OathAlgorithm::Sha512);
}

#[test]
fn percent_decoding_rules() {
    let d = |s: &str| -> String { percent_decode(&s.chars().collect::<Vec<char>>()).into_iter().collect() };
    assert_eq!(d("a%40b+c"), "a@b c");
    assert_eq!(d("%zzx"), "%zzx");
    assert_eq!(d("%4"), "%4");
    assert_eq!(d("%C3%A9"), "%C3%A9");
    assert_eq!(d("%0A%00"), "%0A%00");
    assert_eq!(d("%41%7e%7F"), "A~%7F");
}
