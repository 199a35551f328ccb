use mlc_reader::text::{clean_search_name, is_ascii_digit, parse_i64, parse_u64, text_eq};

#[test]
fn parse_u64_accepts_digits_and_plus() {
    assert_eq!(parse_u64("0"), Some(0));
    assert_eq!(parse_u64("123456789"), Some(123456789));
    assert_eq!(parse_u64("+42"), Some(42));
    assert_eq!(parse_u64("18446744073709551615"), Some(u64::MAX));
}

#[test]
fn parse_u64_refuses_what_std_refuses() {
    for s in ["", "+", "-1", " 1", "1 ", "12a", "18446744073709551616", "99999999999999999999999"] {
        assert_eq!(parse_u64(s), None, "{s}");
        assert_eq!(parse_u64(s), s.parse::<u64>().ok(), "{s}");
    }
}

#[test]
fn parse_i64_matches_std() {
    for s in [
        "0", "-0", "+7", "-7", "9223372036854775807", "9223372036854775808",
        "-9223372036854775808", "-9223372036854775809", "", "-", "+", "--1", "1_000", "٣",
    ] {
        assert_eq!(parse_i64(s), s.parse::<i64>().ok(), "{s}");
    }
    assert_eq!(parse_i64("-9223372036854775808"), Some(i64::MIN));
    assert_eq!(parse_i64("-15"), Some(-15));
}

#[test]
fn ascii_digit_and_text_eq() {
    assert!(is_ascii_digit('0'));
    assert!(is_ascii_digit('9'));
    assert!(!is_ascii_digit('a'));
    assert!(!is_ascii_digit('٣'));
    assert!(text_eq("writer", "writer"));
    assert!(!text_eq("writer", "writers"));
    assert!(!text_eq("Writer", "writer"));
    assert!(text_eq("", ""));
}

#[test]
fn clean_search_name_blanks_punctuation() {
    assert_eq!(clean_search_name("TAYLOR SWIFT"), "TAYLOR SWIFT");
    assert_eq!(clean_search_name("AC/DC (BAND)"), "AC DC  BAND ");
    assert_eq!(clean_search_name("O'BRIEN-2"), "O BRIEN 2");
    assert_eq!(clean_search_name("BJÖRK"), "BJÖRK");
    assert_eq!(clean_search_name("\"*\""), "   ");
    assert_eq!(clean_search_name(""), "");
}

#[test]
fn clean_search_name_keeps_length() {
    let s = "MÖTLEY-CRÜE & co.";
    assert_eq!(clean_search_name(s).chars().count(), s.chars().count());
}
