use api_tester::text::{i64_to_decimal, join, trim, u64_to_decimal, until_char};
use api_tester::greet;

#[test]
fn trim_removes_ascii_whitespace_at_both_ends() {
    assert_eq!(trim("  token-value\n"), "token-value");
    assert_eq!(trim("\t\r\n x y \n"), "x y");
}

#[test]
fn trim_of_blank_text_is_empty() {
    assert_eq!(trim(""), "");
    assert_eq!(trim(" \n\t "), "");
}

#[test]
fn trim_removes_unicode_whitespace_as_std_does() {
    let s = "\u{3000}\u{a0}abc\u{2028}\u{85}";
    assert_eq!(trim(s), s.trim());
    assert_eq!(trim("\u{200b}a"), "\u{200b}a".trim());
}

#[test]
fn trim_is_idempotent() {
    let once = trim("  a b  ");
    assert_eq!(trim(&once), once);
}

#[test]
fn decimal_formats_match_display() {
    assert_eq!(u64_to_decimal(0), "0");
    assert_eq!(u64_to_decimal(7), "7");
    assert_eq!(u64_to_decimal(404), "404");
    assert_eq!(u64_to_decimal(u64::MAX), u64::MAX.to_string());
    assert_eq!(i64_to_decimal(-1), "-1");
    assert_eq!(i64_to_decimal(5432), "5432");
    assert_eq!(i64_to_decimal(i64::MIN), i64::MIN.to_string());
}

#[test]
fn decimal_reads_back() {
    for n in [0u64, 9, 10, 99, 100, 12345, 1_000_000_007] {
        assert_eq!(u64_to_decimal(n).parse::<u64>().unwrap(), n);
    }
}

#[test]
fn join_puts_the_separator_between_neighbours() {
    let items = vec!["a".to_string(), "b".to_string(), "c".to_string()];
    assert_eq!(join(&items, ", "), "a, b, c");
    assert_eq!(join(&vec!["only".to_string()], " | "), "only");
    assert_eq!(join(&Vec::new(), ", "), "");
}

#[test]
fn until_char_cuts_at_the_first_occurrence() {
    assert_eq!(until_char("john.doe@example.com", '@'), "john.doe");
    assert_eq!(until_char("a@b@c", '@'), "a");
    assert_eq!(until_char("no-at-sign", '@'), "no-at-sign");
    assert_eq!(until_char("@leading", '@'), "");
}

#[test]
fn greet_names_the_person() {
    assert_eq!(greet("Ana"), "Hello, Ana! You've been greeted from Rust!");
}
