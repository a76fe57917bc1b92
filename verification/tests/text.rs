use stelarc::text::{
    decimal, elapsed_label, hex, hex_digit, join, same_text, signed_decimal, two_digits,
    upper_hex_u32,
};

#[test]
fn decimal_of_small_and_large_numbers() {
    assert_eq!(decimal(0), "0");
    assert_eq!(decimal(7), "7");
    assert_eq!(decimal(10), "10");
    assert_eq!(decimal(1234567890), "1234567890");
    assert_eq!(decimal(u64::MAX), "18446744073709551615");
}

#[test]
fn signed_decimal_keeps_the_sign() {
    assert_eq!(signed_decimal(0), "0");
    assert_eq!(signed_decimal(1), "1");
    assert_eq!(signed_decimal(-1), "-1");
    assert_eq!(signed_decimal(255), "255");
    assert_eq!(signed_decimal(i32::MAX), "2147483647");
    assert_eq!(signed_decimal(i32::MIN), "-2147483648");
}

#[test]
fn two_digits_pads_one_digit_only() {
    assert_eq!(two_digits(0), "00");
    assert_eq!(two_digits(9), "09");
    assert_eq!(two_digits(10), "10");
    assert_eq!(two_digits(59), "59");
    assert_eq!(two_digits(123), "123");
}

#[test]
fn hex_digits_in_both_cases() {
    assert_eq!(hex_digit(0, false), "0");
    assert_eq!(hex_digit(9, true), "9");
    assert_eq!(hex_digit(10, false), "a");
    assert_eq!(hex_digit(10, true), "A");
    assert_eq!(hex_digit(15, false), "f");
    assert_eq!(hex_digit(15, true), "F");
}

#[test]
fn hex_of_bytes() {
    assert_eq!(hex(&[], false), "");
    assert_eq!(hex(&[10, 20, 30], false), "0a141e");
    assert_eq!(hex(&[0x00, 0xff, 0x7f, 0x80], false), "00ff7f80");
    assert_eq!(hex(&[0xde, 0xad, 0xbe, 0xef], true), "DEADBEEF");
}

#[test]
fn upper_hex_of_u32_has_eight_digits() {
    assert_eq!(upper_hex_u32(0), "00000000");
    assert_eq!(upper_hex_u32(1), "00000001");
    assert_eq!(upper_hex_u32(0xCBF43926), "CBF43926");
    assert_eq!(upper_hex_u32(0x0000ABCD), "0000ABCD");
    assert_eq!(upper_hex_u32(u32::MAX), "FFFFFFFF");
}

#[test]
fn elapsed_label_is_hours_minutes_seconds() {
    assert_eq!(elapsed_label(0), "00:00:00");
    assert_eq!(elapsed_label(59), "00:00:59");
    assert_eq!(elapsed_label(60), "00:01:00");
    assert_eq!(elapsed_label(3599), "00:59:59");
    assert_eq!(elapsed_label(3600), "01:00:00");
    assert_eq!(elapsed_label(3661), "01:01:01");
    assert_eq!(elapsed_label(86399), "23:59:59");
    assert_eq!(elapsed_label(360000), "100:00:00");
}

#[test]
fn join_puts_the_separator_between_neighbours() {
    let none: Vec<String> = Vec::new();
    assert_eq!(join(&none, ", "), "");
    assert_eq!(join(&vec!["a".to_string()], ", "), "a");
    assert_eq!(join(&vec!["a".to_string(), "b".to_string(), "c".to_string()], ", "), "a, b, c");
    assert_eq!(join(&vec!["".to_string(), "".to_string()], "-"), "-");
}

#[test]
fn same_text_compares_characters() {
    assert!(same_text("sfx", "sfx"));
    assert!(same_text("", ""));
    assert!(!same_text("sfx", "SFX"));
    assert!(!same_text("sfx", "sfx "));
}
