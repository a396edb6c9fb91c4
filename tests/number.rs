use cat_match::number::parse_i32;
use cat_match::text::{chars_of, str_eq, string_of};
use cat_match::validation::char_count;

fn p(s: &str) -> Option<i32> {
    parse_i32(&s.chars().collect(), 0)
}

#[test]
fn parses_plain_and_signed() {
    assert_eq!(p("12"), Some(12));
    assert_eq!(p("+7"), Some(7));
    assert_eq!(p("-5"), Some(-5));
    assert_eq!(p("007"), Some(7));
}

#[test]
fn parses_limits() {
    assert_eq!(p("2147483647"), Some(i32::MAX));
    assert_eq!(p("-2147483648"), Some(i32::MIN));
    assert_eq!(p("2147483648"), None);
    assert_eq!(p("-2147483649"), None);
    assert_eq!(p("99999999999999999999"), None);
}

#[test]
fn rejects_non_numbers() {
    assert_eq!(p(""), None);
    assert_eq!(p("-"), None);
    assert_eq!(p("+"), None);
    assert_eq!(p("1a"), None);
    assert_eq!(p(" 1"), None);
    assert_eq!(p("--1"), None);
}

#[test]
fn parses_from_offset() {
    assert_eq!(parse_i32(&">42".chars().collect(), 1), Some(42));
    assert_eq!(parse_i32(&">".chars().collect(), 1), None);
}

#[test]
fn text_helpers_count_characters() {
    assert_eq!(char_count("héllo"), 5);
    assert_eq!(char_count(""), 0);
    assert_eq!(chars_of("ab"), vec!['a', 'b']);
    assert_eq!(string_of(&vec!['x', 'é']), "xé");
    assert!(str_eq("cat", "cat"));
    assert!(!str_eq("cat", "Cat"));
}
