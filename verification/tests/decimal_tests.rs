use ironfish_wallet::decimal::{parse_u64, u64_to_dec};

#[test]
fn renders_decimal_digits() {
    assert_eq!(u64_to_dec(0), "0");
    assert_eq!(u64_to_dec(7), "7");
    assert_eq!(u64_to_dec(10), "10");
    assert_eq!(u64_to_dec(1234567890123), "1234567890123");
    assert_eq!(u64_to_dec(u64::MAX), "18446744073709551615");
}

#[test]
fn parses_plain_decimal() {
    assert_eq!(parse_u64(&"0".to_string()), Some(0));
    assert_eq!(parse_u64(&"42".to_string()), Some(42));
    assert_eq!(parse_u64(&"00042".to_string()), Some(42));
    assert_eq!(parse_u64(&"18446744073709551615".to_string()), Some(u64::MAX));
}

#[test]
fn accepts_a_single_leading_plus() {
    assert_eq!(parse_u64(&"+42".to_string()), Some(42));
    assert_eq!(parse_u64(&"++42".to_string()), None);
    assert_eq!(parse_u64(&"+".to_string()), None);
}

#[test]
fn rejects_non_digits_and_empties() {
    assert_eq!(parse_u64(&"".to_string()), None);
    assert_eq!(parse_u64(&"-1".to_string()), None);
    assert_eq!(parse_u64(&"4 2".to_string()), None);
    assert_eq!(parse_u64(&"12a".to_string()), None);
    assert_eq!(parse_u64(&"\u{0662}".to_string()), None, "only ASCII digits count");
}

#[test]
fn rejects_values_past_u64_max() {
    assert_eq!(parse_u64(&"18446744073709551616".to_string()), None);
    assert_eq!(parse_u64(&"99999999999999999999999".to_string()), None);
}

#[test]
fn render_then_parse_round_trips() {
    for n in [0u64, 1, 9, 10, 12345, u64::MAX - 1, u64::MAX] {
        assert_eq!(parse_u64(&u64_to_dec(n)), Some(n));
    }
}
