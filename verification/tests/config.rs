use yubitui::tui::config::{read_theme_name, theme_config_text};

#[test]
fn theme_config_round_trip() {
    let text = theme_config_text("nord");
    assert_eq!(text, "theme = \"nord\"\n");
    assert_eq!(read_theme_name(&text).as_deref(), Some("nord"));
}

#[test]
fn theme_entry_must_be_a_string() {
    assert_eq!(read_theme_name("theme = 3\n"), None);
    assert_eq!(read_theme_name("other = \"x\"\n"), None);
    assert_eq!(read_theme_name("not toml ["), None);
    assert_eq!(read_theme_name("title = \"a\"\ntheme = 'dracula'\n").as_deref(), Some("dracula"));
}

#[test]
fn theme_name_with_quote_is_not_read_back() {
    let text = theme_config_text("a\"b");
    assert_eq!(read_theme_name(&text), None);
}
