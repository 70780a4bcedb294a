use waitlist::text::{contains, parse_i64};

#[test]
fn parses_plain_and_signed_integers() {
    assert_eq!(parse_i64("42"), Some(42));
    assert_eq!(parse_i64("+7"), Some(7));
    assert_eq!(parse_i64("-7"), Some(-7));
    assert_eq!(parse_i64("0"), Some(0));
    assert_eq!(parse_i64("-0"), Some(0));
    assert_eq!(parse_i64("007"), Some(7));
}

#[test]
fn rejects_what_is_not_an_integer() {
    assert_eq!(parse_i64(""), None);
    assert_eq!(parse_i64("+"), None);
    assert_eq!(parse_i64("-"), None);
    assert_eq!(parse_i64(" 5"), None);
    assert_eq!(parse_i64("5 "), None);
    assert_eq!(parse_i64("1_000"), None);
    assert_eq!(parse_i64("12a"), None);
    assert_eq!(parse_i64("1.5"), None);
    assert_eq!(parse_i64("--1"), None);
    assert_eq!(parse_i64("+-1"), None);
    assert_eq!(parse_i64("\u{661}\u{662}"), None);
    assert_eq!(parse_i64("abc"), None);
}

#[test]
fn keeps_to_the_range_of_i64() {
    assert_eq!(parse_i64("9223372036854775807"), Some(i64::MAX));
    assert_eq!(parse_i64("9223372036854775808"), None);
    assert_eq!(parse_i64("-9223372036854775808"), Some(i64::MIN));
    assert_eq!(parse_i64("-9223372036854775809"), None);
    assert_eq!(parse_i64("99999999999999999999999999999999999999999999"), None);
    assert_eq!(parse_i64("-99999999999999999999999999999999999999999999"), None);
    assert_eq!(parse_i64("000000000000000000000000000000000000000000012"), Some(12));
}

#[test]
fn agrees_with_the_standard_parser() {
    let samples = [
        "", "0", "1", "-1", "+1", "+", "-", "12", "0012", "12 ", " 12", "1 2", "1e3", "0x10", "\u{663}",
        "9223372036854775807", "9223372036854775808", "-9223372036854775808",
        "-9223372036854775809", "18446744073709551616", "+0", "-0", "++1", "1-", "1+", "\u{967}\u{968}",
        "12\n", "\t12", "4294967296", "-4294967296",
    ];
    for sample in samples {
        assert_eq!(parse_i64(sample), sample.parse::<i64>().ok(), "on {:?}", sample);
    }
}

#[test]
fn finds_a_needle_wherever_it_stands() {
    assert!(contains("duplicate_parameter", "duplicate_parameter"));
    assert!(contains("{\"code\":\"duplicate_parameter\"}", "duplicate_parameter"));
    assert!(contains("xduplicate_parameter", "duplicate_parameter"));
    assert!(contains("duplicate_parameterx", "duplicate_parameter"));
    assert!(contains("abcabd", "abd"));
    assert!(contains("aaab", "aab"));
}

#[test]
fn misses_a_needle_that_is_not_there() {
    assert!(!contains("", "a"));
    assert!(!contains("duplicate_paramete", "duplicate_parameter"));
    assert!(!contains("duplicate parameter", "duplicate_parameter"));
    assert!(!contains("DUPLICATE_PARAMETER", "duplicate_parameter"));
    assert!(!contains("ab", "abc"));
}

#[test]
fn finds_the_empty_needle_everywhere() {
    assert!(contains("", ""));
    assert!(contains("abc", ""));
}

#[test]
fn searches_text_beyond_ascii() {
    assert!(contains("gr\u{fc}\u{df}e duplicate_parameter \u{2713}", "duplicate_parameter"));
    assert!(contains("\u{65e5}\u{672c}\u{8a9e}\u{306e}\u{30c6}\u{30ad}\u{30b9}\u{30c8}", "\u{306e}\u{30c6}"));
    assert!(!contains("\u{65e5}\u{672c}\u{8a9e}", "\u{8a9e}\u{65e5}"));
}

#[test]
fn contains_agrees_with_the_standard_search() {
    let hays = ["", "a", "ab", "aab", "abab", "\u{e9}", "a\u{e9}b", "duplicate_parameter", "xyz"];
    let needles = ["", "a", "b", "ab", "ba", "aab", "\u{e9}", "\u{e9}b", "z", "duplicate"];
    for hay in hays {
        for needle in needles {
            assert_eq!(contains(hay, needle), hay.contains(needle), "{:?} in {:?}", needle, hay);
        }
    }
}
