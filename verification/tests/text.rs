use mecha_sdk::text::{parse_integer, to_decimal, to_hex_u16, white_space};

#[test]
fn parse_integer_reads_signs_and_digits() {
    assert_eq!(parse_integer("0", false, 0, 255), Some(0));
    assert_eq!(parse_integer("255", false, 0, 255), Some(255));
    assert_eq!(parse_integer("256", false, 0, 255), None);
    assert_eq!(parse_integer("+17", false, 0, 255), Some(17));
    assert_eq!(parse_integer("-17", false, 0, 255), None);
    assert_eq!(parse_integer("-0", false, 0, 255), None);
    assert_eq!(parse_integer("-17", true, -128, 127), Some(-17));
    assert_eq!(parse_integer("-129", true, -128, 127), None);
    assert_eq!(parse_integer("000000000000000000000000000012", false, 0, 255), Some(12));
    assert_eq!(parse_integer("", true, -128, 127), None);
    assert_eq!(parse_integer("+", true, -128, 127), None);
    assert_eq!(parse_integer("-", true, -128, 127), None);
    assert_eq!(parse_integer("+-1", true, -128, 127), None);
    assert_eq!(parse_integer("1 ", true, -128, 127), None);
    assert_eq!(parse_integer(" 1", true, -128, 127), None);
    assert_eq!(parse_integer("1_0", true, -128, 127), None);
    assert_eq!(parse_integer("12a", true, -128, 127), None);
    assert_eq!(parse_integer("١٢", true, -128, 127), None);
    assert_eq!(parse_integer("1é", true, -128, 127), None);
}

#[test]
fn parse_integer_agrees_with_the_standard_parser() {
    let samples = [
        "0", "-0", "+0", "7", "-7", "+7", "2147483647", "2147483648", "-2147483648", "-2147483649",
        "4294967295", "4294967296", "9223372036854775807", "9223372036854775808",
        "-9223372036854775808", "-9223372036854775809", "99999999999999999999999999999999999999999",
        "", " ", "+", "-", "--1", "++1", "1-", "0x10", "1.5", "１", "00", "-00", "+00012",
    ];
    for sample in samples {
        assert_eq!(parse_integer(sample, true, i64::MIN, i64::MAX), sample.parse::<i64>().ok(), "{:?}", sample);
        assert_eq!(
            parse_integer(sample, true, i32::MIN as i64, i32::MAX as i64),
            sample.parse::<i32>().ok().map(|value| value as i64),
            "{:?}",
            sample
        );
        assert_eq!(
            parse_integer(sample, false, 0, u32::MAX as i64),
            sample.parse::<u32>().ok().map(|value| value as i64),
            "{:?}",
            sample
        );
        assert_eq!(
            parse_integer(sample, false, 0, u8::MAX as i64),
            sample.parse::<u8>().ok().map(|value| value as i64),
            "{:?}",
            sample
        );
    }
}

#[test]
fn decimal_has_no_leading_zeros() {
    assert_eq!(to_decimal(0), "0");
    assert_eq!(to_decimal(9), "9");
    assert_eq!(to_decimal(10), "10");
    assert_eq!(to_decimal(244), "244");
    assert_eq!(to_decimal(1_000_000), "1000000");
    assert_eq!(to_decimal(u64::MAX), "18446744073709551615");
}

#[test]
fn hex_is_prefixed_and_padded() {
    assert_eq!(to_hex_u16(0), "0x0000");
    assert_eq!(to_hex_u16(5), "0x0005");
    assert_eq!(to_hex_u16(0x2001), "0x2001");
    assert_eq!(to_hex_u16(0xABCD), "0xABCD");
    assert_eq!(to_hex_u16(0xffff), "0xFFFF");
    for value in [0u16, 1, 15, 16, 255, 256, 4095, 4096, 0x20ff, 0xbeef, u16::MAX] {
        assert_eq!(to_hex_u16(value), format!("{:#06X}", value));
    }
}

#[test]
fn white_space_is_what_the_standard_library_trims() {
    let mut count = 0;
    for code in 0..=0x10FFFFu32 {
        if let Some(c) = char::from_u32(code) {
            assert_eq!(white_space(c), c.is_whitespace(), "U+{:04X}", code);
            if white_space(c) {
                count += 1;
            }
        }
    }
    assert_eq!(count, 25);
    assert!(white_space(' '));
    assert!(white_space('\u{3000}'));
    assert!(!white_space('\u{200B}'));
    assert!(!white_space('\u{180E}'));
}
