//! Laws that hold of every parse.

use crate::parser::accumulator::Accumulator;
use crate::parser::element::ElementClass;
use crate::parser::model::{
    classes, decimal_value, leading_digits, lemma_digit_run_len, outcome, unsigned_part,
};
use crate::parser::utils::{parsed_as, FromIter, ParseIntError};
use vstd::prelude::*;
use vstd::string::{is_ascii, is_ascii_spec_bytes, StringSliceAdditionalSpecFns};
use vstd::utf8::is_ascii_chars;

verus! {

/// The bytes that stand for a sequence of characters each of which fits in
/// one byte.
pub open spec fn as_bytes_of(chars: Seq<char>) -> Seq<u8> {
    Seq::new(chars.len(), |i: int| chars[i] as u8)
}

/// A sequence of ASCII characters and the bytes that stand for it are
/// classified alike, position by position, so every target type parses the
/// two to the same result.
pub proof fn lemma_chars_and_bytes_agree<A: Accumulator>(chars: Seq<char>)
    requires
        is_ascii_chars(chars),
    ensures
        classes(chars) == classes(as_bytes_of(chars)),
        <A as FromIter<char, ParseIntError>>::parsed(chars) == <A as FromIter<
            u8,
            ParseIntError,
        >>::parsed(as_bytes_of(chars)),
{
    assert(classes(chars) =~= classes(as_bytes_of(chars)));
}

/// An ASCII string parses to the same result from its characters as from
/// its bytes.
pub proof fn lemma_str_and_bytes_agree<A: Accumulator>(text: &str)
    requires
        is_ascii(text),
    ensures
        <A as FromIter<char, ParseIntError>>::parsed(text@) == <A as FromIter<
            u8,
            ParseIntError,
        >>::parsed(text.spec_bytes()),
{
    is_ascii_spec_bytes(text);
    lemma_chars_and_bytes_agree::<A>(text@);
}

/// A sequence that is one or more digits and nothing else.
pub open spec fn all_digits(digits: Seq<ElementClass>) -> bool {
    &&& digits.len() > 0
    &&& forall|i: int| 0 <= i < digits.len() ==> digits[i] is Digit
}

/// `digits` with the marker `-` in front.
pub open spec fn negated(digits: Seq<ElementClass>) -> Seq<ElementClass> {
    seq![ElementClass::NegativeSign] + digits
}

/// Digits alone parse to the number they write where the type holds it, and
/// are an overflow where it is too large; behind a `-` they parse to its
/// negation where the type holds that, and are an underflow where it is too
/// small.
pub proof fn lemma_digits_parse_to_their_value(digits: Seq<ElementClass>, min: int, max: int)
    requires
        min <= 0 <= max,
        all_digits(digits),
    ensures
        outcome(digits, min, max) == if decimal_value(digits) <= max {
            Ok::<int, ParseIntError>(decimal_value(digits) as int)
        } else {
            Err(ParseIntError::Overflow)
        },
        outcome(negated(digits), min, max) == if min <= -decimal_value(digits) {
            Ok::<int, ParseIntError>(-(decimal_value(digits) as int))
        } else {
            Err(ParseIntError::Underflow)
        },
{
    lemma_digit_run_len(digits, digits.len() as int);
    let minus = negated(digits);
    assert(unsigned_part(minus) =~= digits);
    assert(leading_digits(minus) =~= digits);
}

/// The largest value of a type parses and one more is an overflow; the
/// smallest value parses and one less is an underflow.
pub proof fn lemma_boundaries_are_exact<A: Accumulator>(digits: Seq<ElementClass>)
    requires
        all_digits(digits),
    ensures
        decimal_value(digits) == A::max_value() ==> parsed_as::<A>(digits) == Ok::<
            A,
            ParseIntError,
        >(A::from_value(A::max_value())),
        decimal_value(digits) == A::max_value() + 1 ==> parsed_as::<A>(digits) == Err::<
            A,
            ParseIntError,
        >(ParseIntError::Overflow),
        decimal_value(digits) == -A::min_value() ==> parsed_as::<A>(negated(digits)) == Ok::<
            A,
            ParseIntError,
        >(A::from_value(A::min_value())),
        decimal_value(digits) == 1 - A::min_value() ==> parsed_as::<A>(negated(digits)) == Err::<
            A,
            ParseIntError,
        >(ParseIntError::Underflow),
{
    A::lemma_range_holds_digits();
    lemma_digits_parse_to_their_value(digits, A::min_value(), A::max_value());
}

} // verus!
