use tasktide::text::contains_ci;
use tasktide::text::contains_str;
use tasktide::text::eq_ci;
use tasktide::text::parse_u64;
use tasktide::text::str_eq;
use tasktide::text::str_eq_ci;
use tasktide::text::u64_to_string;

#[test]
fn char_case_insensitive_equality() {
    assert!(eq_ci('a', 'A'));
    assert!(eq_ci('Z', 'z'));
    assert!(eq_ci('+', '+'));
    assert!(!eq_ci('a', 'b'));
    // Non-ASCII characters only match themselves.
    assert!(eq_ci('é', 'é'));
    assert!(!eq_ci('é', 'É'));
}

#[test]
fn string_equality() {
    assert!(str_eq("chrome.exe", "chrome.exe"));
    assert!(!str_eq("chrome.exe", "chrome.exf"));
    assert!(!str_eq("chrome", "chrome.exe"));
    assert!(str_eq("", ""));
}

#[test]
fn string_equality_ignores_ascii_case() {
    assert!(str_eq_ci("WINWORD.EXE", "winword.exe"));
    assert!(str_eq_ci("NotePad++.exe", "NOTEPAD++.EXE"));
    assert!(!str_eq_ci("winword.exe", "winword.exf"));
}

#[test]
fn substring_search() {
    assert!(contains_str("hello world", "lo wo"));
    assert!(contains_str("abc", ""));
    assert!(!contains_str("abc", "abcd"));
    assert!(!contains_str("Chrome", "chrome"));
}

#[test]
fn substring_search_ignores_ascii_case() {
    assert!(contains_ci("Google Chrome", "chrome"));
    assert!(contains_ci("SVCHOST.EXE", "svchost"));
    assert!(!contains_ci("explorer.exe", "chrome"));
    assert!(contains_ci("x", ""));
}

#[test]
fn decimal_rendering() {
    assert_eq!(u64_to_string(0), "0");
    assert_eq!(u64_to_string(7), "7");
    assert_eq!(u64_to_string(30), "30");
    assert_eq!(u64_to_string(1800), "1800");
    assert_eq!(u64_to_string(u64::MAX), "18446744073709551615");
}

#[test]
fn decimal_parsing() {
    assert_eq!(parse_u64("0"), Some(0));
    assert_eq!(parse_u64("45"), Some(45));
    assert_eq!(parse_u64("0045"), Some(45));
    assert_eq!(parse_u64("18446744073709551615"), Some(u64::MAX));
    assert_eq!(parse_u64("18446744073709551616"), None);
    assert_eq!(parse_u64(""), None);
    assert_eq!(parse_u64("12a"), None);
    assert_eq!(parse_u64("-5"), None);
    assert_eq!(parse_u64(" 5"), None);
}

#[test]
fn rendering_round_trips_through_parsing() {
    for n in [0u64, 1, 9, 10, 59, 60, 61, 12345, u64::MAX] {
        assert_eq!(parse_u64(&u64_to_string(n)), Some(n));
    }
}
