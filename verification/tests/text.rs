//! The text utilities: decimal parsing and formatting, trimming, and
//! case-insensitive matching.

use timeular_reader::text::{
    contains_ignore_case, eq_ignore_case, parse_u64, trim_end_slashes, trim_slashes,
    trim_spaces, trim_start_slashes, u64_to_string,
};

#[test]
fn parse_u64_accepts_digit_strings() {
    assert_eq!(parse_u64("0"), Some(0));
    assert_eq!(parse_u64("42"), Some(42));
    assert_eq!(parse_u64("007"), Some(7));
    assert_eq!(parse_u64("18446744073709551615"), Some(u64::MAX));
}

#[test]
fn parse_u64_rejects_everything_else() {
    assert_eq!(parse_u64(""), None);
    assert_eq!(parse_u64("abc"), None);
    assert_eq!(parse_u64("4 2"), None);
    assert_eq!(parse_u64("-1"), None);
    assert_eq!(parse_u64("+1"), None);
    assert_eq!(parse_u64("18446744073709551616"), None);
    assert_eq!(parse_u64("99999999999999999999"), None);
}

#[test]
fn u64_to_string_renders_decimal() {
    assert_eq!(u64_to_string(0), "0");
    assert_eq!(u64_to_string(7), "7");
    assert_eq!(u64_to_string(42), "42");
    assert_eq!(u64_to_string(1000), "1000");
    assert_eq!(u64_to_string(u64::MAX), "18446744073709551615");
}

#[test]
fn parse_and_render_round_trip() {
    for n in [0u64, 1, 9, 10, 12345, u64::MAX] {
        assert_eq!(parse_u64(&u64_to_string(n)), Some(n));
    }
}

#[test]
fn slash_trimming() {
    assert_eq!(trim_end_slashes("https://api.example.com///"), "https://api.example.com");
    assert_eq!(trim_end_slashes("no-slash"), "no-slash");
    assert_eq!(trim_end_slashes("///"), "");
    assert_eq!(trim_start_slashes("//a/b"), "a/b");
    assert_eq!(trim_slashes("/api/v1/"), "api/v1");
    assert_eq!(trim_slashes("plain"), "plain");
    assert_eq!(trim_slashes(""), "");
}

#[test]
fn space_trimming() {
    assert_eq!(trim_spaces("  hello \n"), "hello");
    assert_eq!(trim_spaces("\t\r\n "), "");
    assert_eq!(trim_spaces("a b"), "a b");
    assert_eq!(trim_spaces(""), "");
}

#[test]
fn case_insensitive_equality() {
    assert!(eq_ignore_case("Toggl", "toggl"));
    assert!(eq_ignore_case("HACKARU", "hackaru"));
    assert!(eq_ignore_case("", ""));
    assert!(!eq_ignore_case("toggl", "toggle"));
    assert!(!eq_ignore_case("a", ""));
}

#[test]
fn case_insensitive_search() {
    assert!(contains_ignore_case("Timeular Tracker", "timeular"));
    assert!(contains_ignore_case("xTIMEULARx", "timeular"));
    assert!(contains_ignore_case("anything", ""));
    assert!(!contains_ignore_case("short", "longer than hay"));
    assert!(!contains_ignore_case("timeula", "timeular"));
}
