use firmware::decimal::parse_i32;

#[test]
fn parses_decimal_integers() {
    assert_eq!(parse_i32(b"0"), Some(0));
    assert_eq!(parse_i32(b"350"), Some(350));
    assert_eq!(parse_i32(b"-7"), Some(-7));
    assert_eq!(parse_i32(b"+7"), Some(7));
    assert_eq!(parse_i32(b"2147483647"), Some(i32::MAX));
    assert_eq!(parse_i32(b"-2147483648"), Some(i32::MIN));
}

#[test]
fn rejects_what_is_not_an_i32() {
    assert_eq!(parse_i32(b""), None);
    assert_eq!(parse_i32(b"-"), None);
    assert_eq!(parse_i32(b"+"), None);
    assert_eq!(parse_i32(b"abc"), None);
    assert_eq!(parse_i32(b"12a"), None);
    assert_eq!(parse_i32(b" 1"), None);
    assert_eq!(parse_i32(b"2147483648"), None);
    assert_eq!(parse_i32(b"-2147483649"), None);
    assert_eq!(parse_i32(b"99999999999999999999"), None);
}
