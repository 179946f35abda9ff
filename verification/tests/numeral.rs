use azubitafel::numeral::{parse_i32, parse_u32};

const SAMPLES: &[&str] = &[
    "", "0", "7", "42", "007", "+7", "-7", "+", "-", "++7", "+-7", "-+7", "--7", " 7", "7 ", "7a", "a7", "1_000",
    "0x10", "1.5", "1e3", "4294967295", "4294967296", "4294967297", "+4294967295", "2147483647", "2147483648",
    "-2147483648", "-2147483649", "+2147483647", "00000000000000000000000000000000000001",
    "99999999999999999999999999999999999999", "-99999999999999999999999999999999999999", "-0", "+0", "-00",
    "42949672950", "42949672960", "\u{661}\u{662}", "\u{ff11}", "1\u{0}", "١", "12:30", "2024", "٣",
];

#[test]
fn unsigned_numbers_are_read_as_the_standard_library_reads_them() {
    for text in SAMPLES {
        assert_eq!(parse_u32(text), text.parse::<u32>().ok(), "{:?}", text);
    }
}

#[test]
fn signed_numbers_are_read_as_the_standard_library_reads_them() {
    for text in SAMPLES {
        assert_eq!(parse_i32(text), text.parse::<i32>().ok(), "{:?}", text);
    }
}

#[test]
fn numbers_have_their_decimal_value() {
    assert_eq!(parse_u32("0"), Some(0));
    assert_eq!(parse_u32("2025"), Some(2025));
    assert_eq!(parse_u32("+12"), Some(12));
    assert_eq!(parse_u32("0059"), Some(59));
    assert_eq!(parse_u32("4294967295"), Some(u32::MAX));
    assert_eq!(parse_i32("-1"), Some(-1));
    assert_eq!(parse_i32("-2147483648"), Some(i32::MIN));
    assert_eq!(parse_i32("2147483647"), Some(i32::MAX));
    assert_eq!(parse_i32("-0"), Some(0));
}

#[test]
fn what_is_no_numeral_or_does_not_fit_is_refused() {
    assert_eq!(parse_u32(""), None);
    assert_eq!(parse_u32("+"), None);
    assert_eq!(parse_u32("-1"), None);
    assert_eq!(parse_u32("12a"), None);
    assert_eq!(parse_u32(" 12"), None);
    assert_eq!(parse_u32("4294967296"), None);
    assert_eq!(parse_i32("-"), None);
    assert_eq!(parse_i32("2147483648"), None);
    assert_eq!(parse_i32("-2147483649"), None);
}

#[test]
fn every_small_number_is_read_back_from_its_text() {
    for number in -2000..2000i32 {
        assert_eq!(parse_i32(&format!("{}", number)), Some(number));
        if number >= 0 {
            assert_eq!(parse_u32(&format!("{}", number)), Some(number as u32));
        }
    }
}
