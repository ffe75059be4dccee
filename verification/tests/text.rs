use nightfall::text::{i64_to_text, parse_u64, str_eq, u64_to_text};

#[test]
fn formats_unsigned_numbers() {
    assert_eq!(u64_to_text(0), "0");
    assert_eq!(u64_to_text(7), "7");
    assert_eq!(u64_to_text(1234567890), "1234567890");
    assert_eq!(u64_to_text(u64::MAX), u64::MAX.to_string());
}

#[test]
fn formats_signed_numbers() {
    assert_eq!(i64_to_text(-2), "-2");
    assert_eq!(i64_to_text(0), "0");
    assert_eq!(i64_to_text(1280), "1280");
    assert_eq!(i64_to_text(i64::MIN), i64::MIN.to_string());
    assert_eq!(i64_to_text(i64::MAX), i64::MAX.to_string());
}

#[test]
fn parses_like_std() {
    let cases = [
        "42", "+7", "", "+", "-1", "12a", "007", "18446744073709551615", "18446744073709551616",
        " 1", "1 ", "++1", "٣",
    ];
    for c in cases {
        assert_eq!(parse_u64(c), c.parse::<u64>().ok(), "input {:?}", c);
    }
    assert_eq!(parse_u64("18446744073709551615"), Some(u64::MAX));
    assert_eq!(parse_u64("18446744073709551616"), None);
}

#[test]
fn parse_reads_back_formatted_numbers() {
    for n in [0u64, 1, 9, 10, 99, 100, 65535, 4294967296, u64::MAX - 1, u64::MAX] {
        assert_eq!(parse_u64(&u64_to_text(n)), Some(n));
    }
}

#[test]
fn compares_strings() {
    assert!(str_eq("h264", "h264"));
    assert!(!str_eq("h264", "h265"));
    assert!(!str_eq("h264", "h2640"));
    assert!(str_eq("", ""));
    assert!(str_eq("héllo", "héllo"));
}
