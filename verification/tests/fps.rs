use daily_dashboard::text::str_contains;
use daily_dashboard::settings::is_enabled_value;

#[test]
fn is_enabled_value_accepts_truthy_forms() {
    for value in ["1", "true", "TRUE", "Yes", " on ", "ON"] {
        assert!(is_enabled_value(value), "{value:?} should enable FPS");
    }
}

#[test]
fn is_enabled_value_rejects_falsy_and_empty() {
    for value in ["", "0", "false", "FALSE", "no", "off", "maybe", "2"] {
        assert!(!is_enabled_value(value), "{value:?} should not enable FPS");
    }
}

#[test]
fn is_enabled_value_trims_tabs_and_newlines() {
    assert!(is_enabled_value("\tyes\n"));
    assert!(!is_enabled_value("y es"));
}

#[test]
fn str_contains_finds_substrings() {
    assert!(str_contains("xterm-kitty", "kitty"));
    assert!(str_contains("abc", ""));
    assert!(str_contains("", ""));
    assert!(!str_contains("", "a"));
    assert!(!str_contains("kit", "kitty"));
    assert!(str_contains("aab", "ab"));
}

#[test]
fn white_space_is_the_unicode_set() {
    assert!(is_enabled_value("\u{3000}on\u{2029}"));
    assert!(is_enabled_value("\u{85}yes\u{A0}"));
    assert!(!is_enabled_value("\u{200B}on"));
    for c in ['\t', '\n', '\u{B}', '\u{C}', '\r', ' ', '\u{1680}', '\u{2000}', '\u{200A}', '\u{202F}', '\u{205F}'] {
        assert!(c.is_whitespace());
        assert!(is_enabled_value(&format!("{c}1{c}")));
    }
}
