use digit_parser::parser::accumulator::Accumulator;
use digit_parser::parser::element::{Element, ElementClass};
use digit_parser::parser::grammar::IdentifierError;
use digit_parser::parser::parse_identifier;

#[test]
fn characters_are_classified() {
    assert_eq!('0'.classify(), ElementClass::Digit(0));
    assert_eq!('5'.classify(), ElementClass::Digit(5));
    assert_eq!('9'.classify(), ElementClass::Digit(9));
    assert_eq!('+'.classify(), ElementClass::PositiveSign);
    assert_eq!('-'.classify(), ElementClass::NegativeSign);
    assert_eq!('/'.classify(), ElementClass::Unrecognized);
    assert_eq!(':'.classify(), ElementClass::Unrecognized);
    assert_eq!('a'.classify(), ElementClass::Unrecognized);
    assert_eq!(' '.classify(), ElementClass::Unrecognized);
    assert_eq!('_'.classify(), ElementClass::Unrecognized);
    assert_eq!('\u{0663}'.classify(), ElementClass::Unrecognized);
    assert_eq!('\u{ff11}'.classify(), ElementClass::Unrecognized);
}

#[test]
fn bytes_are_classified() {
    assert_eq!(b'0'.classify(), ElementClass::Digit(0));
    assert_eq!(b'9'.classify(), ElementClass::Digit(9));
    assert_eq!(b'+'.classify(), ElementClass::PositiveSign);
    assert_eq!(b'-'.classify(), ElementClass::NegativeSign);
    assert_eq!(b'/'.classify(), ElementClass::Unrecognized);
    assert_eq!(b':'.classify(), ElementClass::Unrecognized);
    assert_eq!(0u8.classify(), ElementClass::Unrecognized);
    assert_eq!(0xB2u8.classify(), ElementClass::Unrecognized);
    assert_eq!(0xFFu8.classify(), ElementClass::Unrecognized);
}

#[test]
fn a_byte_is_classified_as_its_character() {
    for byte in 0u8..=127 {
        assert_eq!(byte.classify(), (byte as char).classify());
    }
}

#[test]
fn classification_does_not_change() {
    for byte in 0u8..=255 {
        let first = byte.classify();
        let second = byte.classify();
        assert_eq!(first, second);
        assert_eq!((byte as char).classify(), (byte as char).classify());
    }
    assert_eq!('7'.classify(), ElementClass::Digit(7));
    assert_eq!('x'.classify(), ElementClass::Unrecognized);
    assert_eq!('7'.classify(), ElementClass::Digit(7));
}

#[test]
fn accumulators_start_from_zero_or_a_digit() {
    assert_eq!(<i8 as Accumulator>::zero(), 0);
    assert_eq!(<u64 as Accumulator>::zero(), 0);
    assert_eq!(<i8 as Accumulator>::from_digit(9), 9);
    assert_eq!(<u8 as Accumulator>::from_digit(7), 7);
    assert_eq!(<i64 as Accumulator>::from_digit(0), 0);
}

#[test]
fn accumulators_multiply_by_ten_or_refuse() {
    assert_eq!(12i8.checked_mul_ten(), Some(120));
    assert_eq!(13i8.checked_mul_ten(), None);
    assert_eq!((-12i8).checked_mul_ten(), Some(-120));
    assert_eq!((-13i8).checked_mul_ten(), None);
    assert_eq!(25u8.checked_mul_ten(), Some(250));
    assert_eq!(26u8.checked_mul_ten(), None);
    assert_eq!(3276i16.checked_mul_ten(), Some(32760));
    assert_eq!(3277i16.checked_mul_ten(), None);
    assert_eq!(6553u16.checked_mul_ten(), Some(65530));
    assert_eq!(6554u16.checked_mul_ten(), None);
    assert_eq!(214748364i32.checked_mul_ten(), Some(2147483640));
    assert_eq!(214748365i32.checked_mul_ten(), None);
    assert_eq!(429496729u32.checked_mul_ten(), Some(4294967290));
    assert_eq!(429496730u32.checked_mul_ten(), None);
    assert_eq!(922337203685477580i64.checked_mul_ten(), Some(9223372036854775800));
    assert_eq!(922337203685477581i64.checked_mul_ten(), None);
    assert_eq!(1844674407370955161u64.checked_mul_ten(), Some(18446744073709551610));
    assert_eq!(1844674407370955162u64.checked_mul_ten(), None);
}

#[test]
fn accumulators_add_a_digit_or_refuse() {
    assert_eq!(120i8.checked_add_digit(7), Some(127));
    assert_eq!(120i8.checked_add_digit(8), None);
    assert_eq!(250u8.checked_add_digit(5), Some(255));
    assert_eq!(250u8.checked_add_digit(6), None);
    assert_eq!(9223372036854775800i64.checked_add_digit(7), Some(i64::MAX));
    assert_eq!(9223372036854775800i64.checked_add_digit(8), None);
    assert_eq!(18446744073709551610u64.checked_add_digit(5), Some(u64::MAX));
    assert_eq!(18446744073709551610u64.checked_add_digit(6), None);
}

#[test]
fn accumulators_subtract_a_digit_or_refuse() {
    assert_eq!((-120i8).checked_sub_digit(8), Some(-128));
    assert_eq!((-120i8).checked_sub_digit(9), None);
    assert_eq!(0u8.checked_sub_digit(0), Some(0));
    assert_eq!(0u8.checked_sub_digit(1), None);
    assert_eq!(5u32.checked_sub_digit(5), Some(0));
    assert_eq!((-9223372036854775800i64).checked_sub_digit(8), Some(i64::MIN));
    assert_eq!((-9223372036854775800i64).checked_sub_digit(9), None);
}

#[test]
fn identifiers_are_recognised() {
    assert_eq!(parse_identifier("x"), Ok("x"));
    assert_eq!(parse_identifier("_x1"), Ok("_x1"));
    assert_eq!(parse_identifier("Abc_9"), Ok("Abc_9"));
    assert_eq!(parse_identifier("\\_\\"), Ok("_"));
    assert_eq!(parse_identifier("\\a1\\"), Ok("a1"));
}

#[test]
fn what_is_no_identifier_is_rejected() {
    assert_eq!(parse_identifier(""), Err(IdentifierError::Empty));
    assert_eq!(parse_identifier("\\\\"), Err(IdentifierError::Empty));
    assert_eq!(parse_identifier("1abc"), Err(IdentifierError::InvalidCharacter));
    assert_eq!(parse_identifier("\\1abc\\"), Err(IdentifierError::InvalidCharacter));
    assert_eq!(parse_identifier("a-b"), Err(IdentifierError::InvalidCharacter));
    assert_eq!(parse_identifier("a b"), Err(IdentifierError::InvalidCharacter));
    assert_eq!(parse_identifier("\\abc"), Err(IdentifierError::InvalidCharacter));
    assert_eq!(parse_identifier("abc\\"), Err(IdentifierError::InvalidCharacter));
    assert_eq!(parse_identifier("\\"), Err(IdentifierError::InvalidCharacter));
    assert_eq!(parse_identifier("\\\\abc\\\\"), Err(IdentifierError::InvalidCharacter));
    assert_eq!(parse_identifier("\u{e9}t\u{e9}"), Err(IdentifierError::InvalidCharacter));
    assert_eq!(parse_identifier("\\\u{e9}\\"), Err(IdentifierError::InvalidCharacter));
}
