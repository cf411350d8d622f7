use ebc_hub::text::{
    decimal_string, hex_byte_string, is_whitespace, parse_i64, parse_u16, parse_usize,
    signed_decimal_string, split_whitespace, str_equals, trim, IntParseError,
};

#[test]
fn decimal_strings() {
    assert_eq!(decimal_string(0), "0");
    assert_eq!(decimal_string(7), "7");
    assert_eq!(decimal_string(20000), "20000");
    assert_eq!(decimal_string(u64::MAX), u64::MAX.to_string());
    assert_eq!(signed_decimal_string(-42), "-42");
    assert_eq!(signed_decimal_string(i64::MIN), i64::MIN.to_string());
    assert_eq!(signed_decimal_string(12), "12");
}

#[test]
fn hex_bytes() {
    assert_eq!(hex_byte_string(0x0a), "0x0a");
    assert_eq!(hex_byte_string(0xfa), "0xfa");
    assert_eq!(hex_byte_string(0), "0x00");
}

#[test]
fn trim_matches_std() {
    for s in ["", "  ", " a ", "\t\nabc\r\n", "a b", "\u{3000}x\u{a0}", "no-space"] {
        assert_eq!(trim(s), s.trim());
    }
    assert!(is_whitespace('\u{2028}'));
    assert!(!is_whitespace('x'));
}

#[test]
fn trim_is_idempotent() {
    for s in ["  x  ", "\u{2000} y", "z"] {
        assert_eq!(trim(&trim(s)), trim(s));
    }
}

#[test]
fn parse_i64_matches_std() {
    for s in ["0", "+5", "-5", "0042", "9223372036854775807", "-9223372036854775808"] {
        assert_eq!(parse_i64(s).unwrap(), s.parse::<i64>().unwrap());
    }
    assert_eq!(parse_i64(""), Err(IntParseError::Empty));
    assert_eq!(parse_i64("-"), Err(IntParseError::InvalidDigit));
    assert_eq!(parse_i64("+"), Err(IntParseError::InvalidDigit));
    assert_eq!(parse_i64("12a"), Err(IntParseError::InvalidDigit));
    assert_eq!(parse_i64(" 1"), Err(IntParseError::InvalidDigit));
    assert_eq!(parse_i64("9223372036854775808"), Err(IntParseError::PosOverflow));
    assert_eq!(parse_i64("-9223372036854775809"), Err(IntParseError::NegOverflow));
    assert_eq!(parse_i64("99999999999999999999x"), Err(IntParseError::PosOverflow));
    assert_eq!(IntParseError::InvalidDigit.to_string(), "invalid digit found in string");
    assert_eq!(IntParseError::Empty.to_string(), "cannot parse integer from empty string");
    assert_eq!(IntParseError::PosOverflow.to_string(), "number too large to fit in target type");
    assert_eq!(IntParseError::NegOverflow.to_string(), "number too small to fit in target type");
}

#[test]
fn parse_unsigned_matches_std() {
    assert_eq!(parse_u16("65535"), Ok(65535));
    assert_eq!(parse_u16("65536"), Err(IntParseError::PosOverflow));
    assert_eq!(parse_u16("-1"), Err(IntParseError::InvalidDigit));
    assert_eq!(parse_u16("+7"), Ok(7));
    assert_eq!(parse_usize("01"), Ok(1));
    assert_eq!(parse_usize("x"), Err(IntParseError::InvalidDigit));
}

#[test]
fn split_whitespace_matches_std() {
    for s in ["", "   ", "connect 1", "  start 1 DSC-CC  20000 2500 0 ", "a\tb\nc", "x\u{3000}y"] {
        let ours = split_whitespace(s);
        let std: Vec<String> = s.split_whitespace().map(|w| w.to_string()).collect();
        assert_eq!(ours, std);
    }
}

#[test]
fn string_equality() {
    assert!(str_equals("abc", "abc"));
    assert!(!str_equals("abc", "abd"));
    assert!(!str_equals("abc", "ab"));
}
