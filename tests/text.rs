use wallpaper_core::text::{
    contains_text, format_duration, is_text_less, sanitize_classified, sanitize_text, validate_text,
};

#[test]
fn test_duration_formatting() {
    assert_eq!(format_duration(5000), "5с");
    assert_eq!(format_duration(65000), "1м 5с");
    assert_eq!(format_duration(3665000), "1ч 1м 5с");
}

#[test]
fn test_validation() {
    assert!(validate_text("Hello world"));
    assert!(!validate_text(""));
    assert!(!validate_text("   "));

    let sanitized = sanitize_text("Hello, world! @#$%");
    assert_eq!(sanitized, "Hello, world!");
}

#[test]
fn duration_edges() {
    assert_eq!(format_duration(0), "0с");
    assert_eq!(format_duration(999), "0с");
    assert_eq!(format_duration(60000), "1м 0с");
    assert_eq!(format_duration(3600000), "1ч 0м 0с");
    assert_eq!(format_duration(90061000), "25ч 1м 1с");
}

#[test]
fn validation_length_is_in_bytes() {
    assert!(validate_text(&"a".repeat(1000)));
    assert!(!validate_text(&"a".repeat(1001)));
    assert!(!validate_text(&"ж".repeat(501)));
    assert!(validate_text(&"ж".repeat(500)));
    assert!(!validate_text("\t\n\u{3000}"));
}

#[test]
fn sanitizing_keeps_letters_of_any_script() {
    assert_eq!(sanitize_text("  Привет, мир! <b>ok</b>  "), "Привет, мир! bokb");
    assert_eq!(sanitize_text("@#$"), "");
    assert_eq!(sanitize_text("a_b-c;d:e?"), "a_b-c;d:e?");
}

#[test]
fn substring_and_order() {
    assert!(contains_text("hello world", "o w"));
    assert!(contains_text("abc", ""));
    assert!(!contains_text("abc", "abcd"));
    assert!(!contains_text("", "a"));
    assert!(is_text_less("2024-01-01", "2024-01-02"));
    assert!(is_text_less("abc", "abcd"));
    assert!(!is_text_less("abc", "abc"));
    assert!(!is_text_less("b", "abc"));
    assert!(is_text_less("z", "ж"));
}

#[test]
fn sanitizing_with_given_flags() {
    let text = "a@b c";
    let flags = vec![true, true, false, false, true];
    assert_eq!(sanitize_classified(text, &flags), "a@ c");
    assert_eq!(sanitize_classified(" x ", &vec![false, false, false]), "");
}
