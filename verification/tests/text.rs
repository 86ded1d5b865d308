use cazan_cli::text::decimal_text;
use cazan_cli::text::quoted_list_text;

#[test]
fn decimal_of_zero() {
    assert_eq!(decimal_text(0), "0");
}

#[test]
fn decimal_of_small_and_large_numbers() {
    assert_eq!(decimal_text(7), "7");
    assert_eq!(decimal_text(10), "10");
    assert_eq!(decimal_text(65535), "65535");
    assert_eq!(decimal_text(1_000_000_007), "1000000007");
    assert_eq!(decimal_text(u64::MAX), "18446744073709551615");
}

#[test]
fn quoted_list_of_nothing_is_empty() {
    assert_eq!(quoted_list_text(&vec![]), "");
}

#[test]
fn quoted_list_of_one_name() {
    assert_eq!(quoted_list_text(&vec!["fooBar".to_string()]), "`fooBar`");
}

#[test]
fn quoted_list_separates_with_comma_and_space() {
    let names = vec!["a".to_string(), "plugins.0.b".to_string(), "".to_string()];
    assert_eq!(quoted_list_text(&names), "`a`, `plugins.0.b`, ``");
}
