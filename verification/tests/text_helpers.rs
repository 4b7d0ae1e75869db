use genai_media::text::{blank, decimal_string, pad_to, parse_u32, str_eq};

#[test]
fn parse_u32_accepts_plain_and_plus_signed_digits() {
    assert_eq!(parse_u32("1024"), Some(1024));
    assert_eq!(parse_u32("+7"), Some(7));
    assert_eq!(parse_u32("007"), Some(7));
    assert_eq!(parse_u32("0"), Some(0));
    assert_eq!(parse_u32("4294967295"), Some(4294967295));
}

#[test]
fn parse_u32_refuses_what_str_parse_refuses() {
    assert_eq!(parse_u32(""), None);
    assert_eq!(parse_u32("+"), None);
    assert_eq!(parse_u32("-1"), None);
    assert_eq!(parse_u32("12a"), None);
    assert_eq!(parse_u32(" 12"), None);
    assert_eq!(parse_u32("4294967296"), None);
    assert_eq!(parse_u32("99999999999999999999"), None);
    assert_eq!(parse_u32("++1"), None);
}

#[test]
fn parse_u32_agrees_with_std_on_samples() {
    for s in ["", "0", "+0", "-0", "12", "65536", "4294967295", "4294967296", "1_000", "١٢", "+-3"] {
        assert_eq!(parse_u32(s), s.parse::<u32>().ok(), "input {s:?}");
    }
}

#[test]
fn decimal_string_matches_to_string() {
    for n in [0u64, 7, 10, 99, 100, 1711547200, u64::MAX] {
        assert_eq!(decimal_string(n), n.to_string());
    }
}

#[test]
fn pad_to_pads_short_strings_only() {
    assert_eq!(pad_to("ab", 4), "ab  ");
    assert_eq!(pad_to("abcdef", 3), "abcdef");
    assert_eq!(pad_to("", 2), "  ");
    assert_eq!(pad_to("é", 3), format!("{:3}", "é"));
}

#[test]
fn blank_matches_trim_is_empty() {
    for s in ["", " ", " \t\n\r", "\u{3000}\u{a0}", " a ", "x", "\u{200b}", "\u{2028}"] {
        assert_eq!(blank(s), s.trim().is_empty(), "input {s:?}");
    }
}

#[test]
fn str_eq_compares_characters() {
    assert!(str_eq("fal", "fal"));
    assert!(!str_eq("fal", "fa"));
    assert!(!str_eq("fal", "Fal"));
    assert!(str_eq("", ""));
}
