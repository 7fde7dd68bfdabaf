use cq_bot::matching::{
    align_left, align_right, blank_text, capture, digit_text, i64_padded2, parse_u128, text_eq, u128_text,
};

#[test]
fn capture_picks_the_named_group() {
    assert_eq!(capture(r"^>echo\s+(?P<content>.+)$", ">echo hi there", "$content"), Some("hi there".to_string()));
    assert_eq!(capture(r"^(?P<a>\d+)-(?P<b>\d+)$", "12-34", "$b"), Some("34".to_string()));
    assert_eq!(capture(r"^(?P<a>\d+)-(?P<b>\d+)$", "12-34", "$b/$a"), Some("34/12".to_string()));
}

#[test]
fn capture_without_a_match() {
    assert_eq!(capture(r"^>echo\s+(?P<content>.+)$", "echo hi", "$content"), None);
    assert_eq!(capture(r"^a$", "", "x"), None);
}

#[test]
fn capture_with_a_pattern_that_does_not_compile() {
    assert_eq!(capture(r"(", "(", "x"), None);
    assert_eq!(capture(r"[a-", "a", "x"), None);
}

#[test]
fn text_equality() {
    assert!(text_eq("", ""));
    assert!(text_eq("复读机", "复读机"));
    assert!(!text_eq("a", "A"));
    assert!(!text_eq("a", "ab"));
}

#[test]
fn numbers_in_decimal() {
    assert_eq!(u128_text(0), "0");
    assert_eq!(u128_text(9), "9");
    assert_eq!(u128_text(10), "10");
    assert_eq!(u128_text(1234567890), "1234567890");
    assert_eq!(u128_text(u128::MAX), u128::MAX.to_string());
    assert_eq!(digit_text(0), "0");
    assert_eq!(digit_text(9), "9");
}

#[test]
fn numbers_padded_to_two() {
    assert_eq!(i64_padded2(0), "00");
    assert_eq!(i64_padded2(7), "07");
    assert_eq!(i64_padded2(10), "10");
    assert_eq!(i64_padded2(123), "123");
    assert_eq!(i64_padded2(-1), "-1");
    assert_eq!(i64_padded2(-12), "-12");
    assert_eq!(i64_padded2(i64::MIN), format!("{:02}", i64::MIN));
    assert_eq!(i64_padded2(i64::MAX), format!("{:02}", i64::MAX));
    for v in -20..120i64 {
        assert_eq!(i64_padded2(v), format!("{:02}", v));
    }
}

#[test]
fn parsing_numbers() {
    assert_eq!(parse_u128("0"), Some(0));
    assert_eq!(parse_u128("007"), Some(7));
    assert_eq!(parse_u128("+15"), Some(15));
    assert_eq!(parse_u128("340282366920938463463374607431768211455"), Some(u128::MAX));
    assert_eq!(parse_u128("340282366920938463463374607431768211456"), None);
    assert_eq!(parse_u128("3402823669209384634633746074317682114550"), None);
    assert_eq!(parse_u128(""), None);
    assert_eq!(parse_u128("+"), None);
    assert_eq!(parse_u128("-1"), None);
    assert_eq!(parse_u128("++1"), None);
    assert_eq!(parse_u128("1 "), None);
    assert_eq!(parse_u128("1a"), None);
    assert_eq!(parse_u128("１"), None);
}

#[test]
fn parsing_agrees_with_the_standard_library() {
    let samples = ["0", "1", "+1", "-0", "99", "0099", "+", "", " 1", "1_000", "18446744073709551616", "٣"];
    for s in samples {
        assert_eq!(parse_u128(s), s.parse::<u128>().ok(), "on {:?}", s);
    }
}

#[test]
fn text_in_columns() {
    assert_eq!(blank_text(0), "");
    assert_eq!(blank_text(3), "   ");
    assert_eq!(align_right("ab", 5), "   ab");
    assert_eq!(align_left("ab", 5), "ab   ");
    assert_eq!(align_right("abcdef", 5), "abcdef");
    assert_eq!(align_left("abcdef", 5), "abcdef");
    assert_eq!(align_right("复读", 4), "  复读");
    assert_eq!(align_left("", 2), "  ");
}
