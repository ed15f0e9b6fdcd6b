use walli::text::{i64_to_text, parse_i64, parse_u64, replace_all, str_eq, u64_to_text};

#[test]
fn parse_u64_matches_std() {
    for s in ["0", "3600", "+7", "007", "18446744073709551615", "18446744073709551616", "", "+", "-1", "1a", " 1", "12 ", "٣"] {
        assert_eq!(parse_u64(s), s.parse::<u64>().ok(), "input {s:?}");
    }
    assert_eq!(parse_u64("3600"), Some(3600));
    assert_eq!(parse_u64("18446744073709551616"), None);
}

#[test]
fn parse_i64_matches_std() {
    for s in ["0", "-0", "+5", "-5", "9223372036854775807", "9223372036854775808", "-9223372036854775808",
              "-9223372036854775809", "", "-", "+", "--1", "1.5", "1735689600"] {
        assert_eq!(parse_i64(s), s.parse::<i64>().ok(), "input {s:?}");
    }
    assert_eq!(parse_i64("-9223372036854775808"), Some(i64::MIN));
}

#[test]
fn formatting_matches_std() {
    for n in [0u64, 7, 10, 404, 3600, u64::MAX] {
        assert_eq!(u64_to_text(n), n.to_string());
    }
    for n in [0i64, -1, 9, -10, 1735689600, i64::MAX, i64::MIN] {
        assert_eq!(i64_to_text(n), n.to_string());
    }
}

#[test]
fn text_round_trips() {
    for n in [0i64, -42, 1735689600, i64::MIN, i64::MAX] {
        assert_eq!(parse_i64(&i64_to_text(n)), Some(n));
    }
    for n in [0u64, 3600, u64::MAX] {
        assert_eq!(parse_u64(&u64_to_text(n)), Some(n));
    }
}

#[test]
fn replace_matches_std() {
    let cases = [
        ("/th?id=OHR.Foo_EN-US123_1920x1080.jpg", "_1920x1080", "_UHD"),
        ("aaaa", "aa", "b"),
        ("abc", "x", "y"),
        ("_1920x1080_1920x1080", "_1920x1080", ""),
        ("", "a", "b"),
    ];
    for (s, from, to) in cases {
        assert_eq!(replace_all(s, from, to), s.replace(from, to));
    }
}

#[test]
fn str_eq_compares_characters() {
    assert!(str_eq("true", "true"));
    assert!(!str_eq("true", "True"));
    assert!(!str_eq("true", "tru"));
    assert!(str_eq("", ""));
}
