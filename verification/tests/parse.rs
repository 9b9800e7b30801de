use title_basics::parse_i32;

#[test]
fn parses_plain_years() {
    assert_eq!(parse_i32("1999"), Some(1999));
    assert_eq!(parse_i32("0"), Some(0));
    assert_eq!(parse_i32("007"), Some(7));
}

#[test]
fn parses_signed_values() {
    assert_eq!(parse_i32("+42"), Some(42));
    assert_eq!(parse_i32("-42"), Some(-42));
    assert_eq!(parse_i32("-0"), Some(0));
}

#[test]
fn parses_extreme_values() {
    assert_eq!(parse_i32("2147483647"), Some(i32::MAX));
    assert_eq!(parse_i32("-2147483648"), Some(i32::MIN));
    assert_eq!(parse_i32("2147483648"), None);
    assert_eq!(parse_i32("-2147483649"), None);
    assert_eq!(parse_i32("99999999999999999999"), None);
    assert_eq!(parse_i32("-99999999999999999999"), None);
}

#[test]
fn rejects_non_numeric_text() {
    assert_eq!(parse_i32(""), None);
    assert_eq!(parse_i32("+"), None);
    assert_eq!(parse_i32("-"), None);
    assert_eq!(parse_i32("abcd"), None);
    assert_eq!(parse_i32("12a"), None);
    assert_eq!(parse_i32("a12"), None);
    assert_eq!(parse_i32(" 12"), None);
    assert_eq!(parse_i32("12 "), None);
    assert_eq!(parse_i32("1.5"), None);
    assert_eq!(parse_i32("+-3"), None);
    assert_eq!(parse_i32("--3"), None);
    assert_eq!(parse_i32("१९९९"), None);
}

#[test]
fn agrees_with_std_parsing() {
    for text in [
        "1999", "-17", "+0", "0042", "2147483647", "-2147483648", "2147483648", "", "x", "3x",
    ] {
        assert_eq!(parse_i32(text), text.parse::<i32>().ok(), "on {:?}", text);
    }
}
