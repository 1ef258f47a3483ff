use bmc_mock::text::{decimal, joined, parse_decimal, str_eq};

#[test]
fn str_eq_compares_contents() {
    assert!(str_eq("abc", "abc"));
    assert!(str_eq("", ""));
    assert!(!str_eq("abc", "abd"));
    assert!(!str_eq("abc", "ab"));
    assert!(!str_eq("\u{e9}", "e"));
}

#[test]
fn joined_joins() {
    assert_eq!(joined("ab", "cd"), "abcd");
    assert_eq!(joined("", "x"), "x");
}

#[test]
fn decimal_writes_numbers() {
    assert_eq!(decimal(0), "0");
    assert_eq!(decimal(7), "7");
    assert_eq!(decimal(10), "10");
    assert_eq!(decimal(1266), "1266");
    assert_eq!(decimal(usize::MAX), usize::MAX.to_string());
}

#[test]
fn parse_decimal_reads_numbers() {
    assert_eq!(parse_decimal("0"), Some(0));
    assert_eq!(parse_decimal("42"), Some(42));
    assert_eq!(parse_decimal("007"), Some(7));
    assert_eq!(parse_decimal(&usize::MAX.to_string()), Some(usize::MAX));
}

#[test]
fn parse_decimal_refuses_what_is_no_number() {
    assert_eq!(parse_decimal(""), None);
    assert_eq!(parse_decimal("-1"), None);
    assert_eq!(parse_decimal("+1"), None);
    assert_eq!(parse_decimal("1a"), None);
    assert_eq!(parse_decimal(" 1"), None);
    assert_eq!(parse_decimal("\u{663}"), None);
}

#[test]
fn parse_decimal_refuses_what_does_not_fit() {
    let too_big = format!("{}0", usize::MAX);
    assert_eq!(parse_decimal(&too_big), None);
    let one_more = format!("{}", usize::MAX as u128 + 1);
    assert_eq!(parse_decimal(&one_more), None);
}

#[test]
fn decimal_round_trip() {
    for n in [0usize, 1, 9, 10, 99, 100, 12345, usize::MAX] {
        assert_eq!(parse_decimal(&decimal(n)), Some(n));
    }
}

#[test]
fn without_char_takes_every_occurrence_out() {
    assert_eq!(bmc_mock::text::without_char("00:1a:2b", ':'), "001a2b");
    assert_eq!(bmc_mock::text::without_char("::", ':'), "");
    assert_eq!(bmc_mock::text::without_char("abc", ':'), "abc");
    assert_eq!(bmc_mock::text::without_char("", ':'), "");
}

#[test]
fn ascii_uppercased_changes_ascii_letters_only() {
    assert_eq!(bmc_mock::text::ascii_uppercased("001a2b-z{"), "001A2B-Z{");
    assert_eq!(bmc_mock::text::ascii_uppercased("\u{e9}a`"), "\u{e9}A`");
    assert_eq!(bmc_mock::text::ascii_uppercased(""), "");
}
