//! The hex color parser and the string helpers.

use macropad::color::parse_hex_color;
use macropad::strutil::{parse_u32, parse_u64, split_str, str_eq_ignore_case, trim, two_digits,
    u64_to_string, i64_to_string};

#[test]
fn hex_colors_roundtrip() {
    assert_eq!(parse_hex_color("#1a1a2e"), (26, 26, 46));
    assert_eq!(parse_hex_color("#e94560"), (233, 69, 96));
    assert_eq!(parse_hex_color("#000000"), (0, 0, 0));
    assert_eq!(parse_hex_color("#ffffff"), (255, 255, 255));
    assert_eq!(parse_hex_color("#AABBCC"), (170, 187, 204));
    // the leading `#` is optional
    assert_eq!(parse_hex_color("e94560"), (233, 69, 96));
}

#[test]
fn invalid_colors_fall_back_to_the_default() {
    assert_eq!(parse_hex_color(""), (26, 26, 46));
    assert_eq!(parse_hex_color("#"), (26, 26, 46));
    assert_eq!(parse_hex_color("#12"), (26, 26, 46));
    assert_eq!(parse_hex_color("#GG0000"), (26, 26, 46));
    assert_eq!(parse_hex_color("red"), (26, 26, 46));
    assert_eq!(parse_hex_color("#12345"), (26, 26, 46));
}

#[test]
fn longer_color_texts_use_the_first_six_digits() {
    assert_eq!(parse_hex_color("#11223344"), (0x11, 0x22, 0x33));
}

#[test]
fn decimal_texts() {
    assert_eq!(u64_to_string(0), "0");
    assert_eq!(u64_to_string(48), "48");
    assert_eq!(u64_to_string(18_446_744_073_709_551_615), "18446744073709551615");
    assert_eq!(two_digits(5), "05");
    assert_eq!(two_digits(59), "59");
    assert_eq!(two_digits(120), "120");
    assert_eq!(i64_to_string(-42), "-42");
    assert_eq!(i64_to_string(7), "7");
}

#[test]
fn parsing_numbers_matches_the_standard_parser() {
    assert_eq!(parse_u64("0"), Some(0));
    assert_eq!(parse_u64("1200"), Some(1200));
    assert_eq!(parse_u64("+7"), Some(7));
    assert_eq!(parse_u64(""), None);
    assert_eq!(parse_u64("+"), None);
    assert_eq!(parse_u64("12a"), None);
    assert_eq!(parse_u64("-3"), None);
    assert_eq!(parse_u64("18446744073709551615"), Some(u64::MAX));
    assert_eq!(parse_u64("18446744073709551616"), None);
    assert_eq!(parse_u32("4294967295"), Some(u32::MAX));
    assert_eq!(parse_u32("4294967296"), None);
}

#[test]
fn trimming_and_splitting() {
    assert_eq!(trim("  a b  "), "a b");
    assert_eq!(trim("\t\nx\r "), "x");
    assert_eq!(trim(""), "");
    assert_eq!(trim("   "), "");
    let parts = split_str("a;;b;;c", ";;");
    assert_eq!(parts, vec!["a", "b", "c"]);
    let parts = split_str("a;;;b", ";;");
    assert_eq!(parts, vec!["a", ";b"]);
    let parts = split_str("one", ";;");
    assert_eq!(parts, vec!["one"]);
    let parts = split_str("ctrl+shift+a", "+");
    assert_eq!(parts, vec!["ctrl", "shift", "a"]);
    let parts = split_str("x++y", "+");
    assert_eq!(parts, vec!["x", "", "y"]);
}

#[test]
fn case_insensitive_comparison() {
    assert!(str_eq_ignore_case("CTRL", "ctrl"));
    assert!(str_eq_ignore_case("Shift", "sHIFT"));
    assert!(!str_eq_ignore_case("ctrl", "ctl"));
}
