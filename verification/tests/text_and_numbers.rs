use combatlog::numbers::decimal_text;
use combatlog::numbers::format_with_commas;
use combatlog::numbers::parse_i32;
use combatlog::text::is_blank;
use combatlog::text::same_text;
use combatlog::text::trim;
use combatlog::text::trim_final_newlines;
use combatlog::text::truncate;

#[test]
fn commas_group_by_three() {
    assert_eq!(format_with_commas(0), "0");
    assert_eq!(format_with_commas(7), "7");
    assert_eq!(format_with_commas(999), "999");
    assert_eq!(format_with_commas(1000), "1,000");
    assert_eq!(format_with_commas(12345), "12,345");
    assert_eq!(format_with_commas(123456), "123,456");
    assert_eq!(format_with_commas(1000007), "1,000,007");
    assert_eq!(format_with_commas(usize::MAX), "18,446,744,073,709,551,615");
}

#[test]
fn commas_leave_the_digits() {
    let n: usize = 9_876_543_210;
    assert_eq!(format_with_commas(n).replace(',', ""), n.to_string());
}

#[test]
fn decimals_are_signed() {
    assert_eq!(decimal_text(0), "0");
    assert_eq!(decimal_text(-1), "-1");
    assert_eq!(decimal_text(i64::MIN), "-9223372036854775808");
    assert_eq!(decimal_text(i64::MAX), "9223372036854775807");
}

#[test]
fn numbers_are_parsed() {
    assert_eq!(parse_i32("59"), Some(59));
    assert_eq!(parse_i32("007"), Some(7));
    assert_eq!(parse_i32("-12"), "-12".parse::<i32>().ok());
    assert_eq!(parse_i32("+12"), "+12".parse::<i32>().ok());
    assert_eq!(parse_i32(""), None);
    assert_eq!(parse_i32("-"), None);
    assert_eq!(parse_i32("12a"), None);
    assert_eq!(parse_i32("2147483647"), Some(2147483647));
    assert_eq!(parse_i32("2147483648"), None);
    assert_eq!(parse_i32("-2147483648"), Some(-2147483648));
    assert_eq!(parse_i32("99999999999999999999999999"), None);
}

#[test]
fn short_texts_are_not_cut() {
    assert_eq!(truncate("abc", 3), "abc");
    assert_eq!(truncate("", 0), "");
}

#[test]
fn long_texts_are_cut_at_a_character() {
    assert_eq!(truncate("abcd", 3), "abc\u{2026}");
    assert_eq!(truncate("a\u{e4}b", 2), "a\u{2026}");
    assert_eq!(truncate("\u{1f600}x", 3), "\u{2026}");
    let long = "x".repeat(600);
    let cut = truncate(&long, 500);
    assert_eq!(cut.len(), 503);
    assert!(cut.starts_with(&long[..500]));
}

#[test]
fn texts_are_trimmed() {
    assert_eq!(trim("  a b\t\n"), "a b");
    assert_eq!(trim("\u{a0}x\u{2003}"), "x");
    assert_eq!(trim(" \r\n "), "");
    assert!(is_blank(" \u{3000}\n"));
    assert!(is_blank(""));
    assert!(!is_blank(" . "));
    assert_eq!(trim_final_newlines("a\n\nb\n\n"), "a\n\nb");
    assert_eq!(trim_final_newlines("\n\n"), "");
    assert_eq!(trim_final_newlines("a \r"), "a \r");
}

#[test]
fn texts_are_compared() {
    assert!(same_text("warcraft", "warcraft"));
    assert!(!same_text("warcraft", "warcraf"));
    assert!(!same_text("ff", "fF"));
    assert!(same_text("", ""));
}
