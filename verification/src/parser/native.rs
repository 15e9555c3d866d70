//! The decimal grammar of the standard library's integer parser, and how the
//! parses of this library compare with it.

use crate::parser::element::ElementClass;
use crate::parser::model::{
    classes, decimal_value, digit_run_len, leading_digits, lemma_digit_run_holds_digits,
    lemma_digit_run_len, outcome, unsigned_part,
};
use crate::parser::utils::{FromIter, ParseIntError};
use vstd::prelude::*;

verus! {

/// Why the standard grammar rejects an input.
#[derive(Debug, Clone, Copy, PartialEq, Eq, Structural)]
pub enum NativeErrorKind {
    /// The input is empty.
    Empty,
    /// A character is no digit where a digit is due; so is a sign alone.
    InvalidDigit,
    /// The number is too large for the target type.
    PosOverflow,
    /// The number is too small for the target type.
    NegOverflow,
    /// A kind that the grammar of plain integers never gives.
    Other,
}

/// The rejection of this library that answers to one of the standard grammar.
pub open spec fn counterpart(kind: NativeErrorKind) -> Option<ParseIntError> {
    match kind {
        NativeErrorKind::Empty => Some(ParseIntError::Empty),
        NativeErrorKind::InvalidDigit => Some(ParseIntError::InvalidDigit),
        NativeErrorKind::PosOverflow => Some(ParseIntError::Overflow),
        NativeErrorKind::NegOverflow => Some(ParseIntError::Underflow),
        NativeErrorKind::Other => None,
    }
}

/// Whether the standard grammar reads the first element as a sign: `+`
/// always, `-` only where the target type has negative values.
pub open spec fn native_takes_sign(classes: Seq<ElementClass>, min: int) -> bool {
    classes.len() > 0 && (classes[0] is PositiveSign || (classes[0] is NegativeSign && min < 0))
}

/// What the standard grammar reads as digits: everything behind the sign it
/// takes, or everything where it takes none.
pub open spec fn native_unsigned_part(classes: Seq<ElementClass>, min: int) -> Seq<ElementClass> {
    if native_takes_sign(classes, min) {
        classes.drop_first()
    } else {
        classes
    }
}

/// The result of the standard grammar on `classes` for a type that holds
/// `min ..= max`.
///
/// An empty input is `Empty` and a sign alone is `InvalidDigit`. Otherwise
/// the digits behind the optional sign are read from the left: a number
/// above `max` is `PosOverflow`, one below `min` is `NegOverflow`, and
/// anything that is no digit is `InvalidDigit` unless the digits before it
/// already left the range.
pub open spec fn native_outcome(classes: Seq<ElementClass>, min: int, max: int) -> Result<
    int,
    NativeErrorKind,
> {
    let body = native_unsigned_part(classes, min);
    let run = body.take(digit_run_len(body) as int);
    let value = if classes.len() > 0 && classes[0] is NegativeSign && min < 0 {
        -(decimal_value(run) as int)
    } else {
        decimal_value(run) as int
    };
    if classes.len() == 0 {
        Err(NativeErrorKind::Empty)
    } else if body.len() == 0 {
        Err(NativeErrorKind::InvalidDigit)
    } else if value > max {
        Err(NativeErrorKind::PosOverflow)
    } else if value < min {
        Err(NativeErrorKind::NegOverflow)
    } else if run.len() < body.len() {
        Err(NativeErrorKind::InvalidDigit)
    } else {
        Ok(value)
    }
}

/// What the standard library documents of parsing `text` as an `i64`.
///
/// A text that holds anything but digits behind its optional sign is
/// rejected. Of the others, the empty text is `Empty`, a sign alone is
/// `InvalidDigit`, and digits are the number they write, negated behind a
/// `-`: `PosOverflow` where that is too large, `NegOverflow` where it is too
/// small.
pub open spec fn documented_for_i64(text: Seq<char>, result: Result<i64, NativeErrorKind>) -> bool {
    let read = classes(text);
    let digits = unsigned_part(read);
    let written = decimal_value(digits) as int;
    if exists|i: int| 0 <= i < digits.len() && !(digits[i] is Digit) {
        result is Err
    } else if read.len() == 0 {
        result == Err::<i64, NativeErrorKind>(NativeErrorKind::Empty)
    } else if digits.len() == 0 {
        result == Err::<i64, NativeErrorKind>(NativeErrorKind::InvalidDigit)
    } else if read[0] is NegativeSign {
        result == if -written < i64::MIN {
            Err::<i64, NativeErrorKind>(NativeErrorKind::NegOverflow)
        } else {
            Ok((-written) as i64)
        }
    } else {
        result == if written > i64::MAX {
            Err::<i64, NativeErrorKind>(NativeErrorKind::PosOverflow)
        } else {
            Ok(written as i64)
        }
    }
}

/// The result of the standard grammar as a result of the standard library's
/// parser for `i64`.
pub open spec fn native_outcome_for_i64(text: Seq<char>) -> Result<i64, NativeErrorKind> {
    match native_outcome(classes(text), i64::MIN as int, i64::MAX as int) {
        Ok(value) => Ok(value as i64),
        Err(kind) => Err(kind),
    }
}

/// Whether a result of this library answers to one of the standard grammar:
/// the same integer, or rejections that are counterparts.
pub open spec fn in_parity(
    ours: Result<int, ParseIntError>,
    theirs: Result<int, NativeErrorKind>,
) -> bool {
    match theirs {
        Ok(value) => ours == Ok::<int, ParseIntError>(value),
        Err(kind) => ours is Err && Some(ours->Err_0) == counterpart(kind),
    }
}

/// The inputs on which this library departs from the standard grammar: a
/// sign alone, which is zero here; and, for a type without negative values,
/// a `-` followed by digits that either write a number other than zero (an
/// underflow here) or run to the end (zero here).
pub open spec fn departs_from_native(classes: Seq<ElementClass>, min: int) -> bool {
    ||| classes.len() == 1 && (classes[0] is PositiveSign || classes[0] is NegativeSign)
    ||| {
        &&& min == 0
        &&& classes.len() > 1
        &&& classes[0] is NegativeSign
        &&& (decimal_value(leading_digits(classes)) > 0 || leading_digits(classes).len()
            == unsigned_part(classes).len())
    }
}

/// A parse is in parity with the standard grammar exactly on the inputs on
/// which the library does not depart from it.
proof fn lemma_parity_or_departure(classes: Seq<ElementClass>, min: int, max: int)
    requires
        min <= 0 <= max,
    ensures
        in_parity(outcome(classes, min, max), native_outcome(classes, min, max))
            <==> !departs_from_native(classes, min),
{
    if classes.len() > 1 && classes[0] is NegativeSign && min == 0 {
        lemma_digit_run_holds_digits(unsigned_part(classes));
    }
}

/// Parity with the standard grammar: on every input on which the library
/// does not depart from it, a parse gives the integer that the standard
/// grammar gives, or the counterpart of its rejection.
pub proof fn lemma_parity(classes: Seq<ElementClass>, min: int, max: int)
    requires
        min <= 0 <= max,
        !departs_from_native(classes, min),
    ensures
        in_parity(outcome(classes, min, max), native_outcome(classes, min, max)),
{
    lemma_parity_or_departure(classes, min, max);
}

/// On every input on which the library departs from the standard grammar,
/// the two results are not in parity: no other input is left out of
/// `lemma_parity`.
pub proof fn lemma_departures_are_real(classes: Seq<ElementClass>, min: int, max: int)
    requires
        min <= 0 <= max,
        departs_from_native(classes, min),
    ensures
        !in_parity(outcome(classes, min, max), native_outcome(classes, min, max)),
{
    lemma_parity_or_departure(classes, min, max);
}

/// A text that holds nothing but digits behind its optional sign; the empty
/// text and a sign alone are such texts.
pub open spec fn is_sign_and_digits(text: Seq<char>) -> bool {
    forall|i: int|
        0 <= i < unsigned_part(classes(text)).len() ==> unsigned_part(classes(text))[i] is Digit
}

/// Where the standard library documents which result its parser gives, the
/// standard grammar gives the same.
pub proof fn lemma_grammar_is_as_documented(text: Seq<char>, theirs: Result<i64, NativeErrorKind>)
    requires
        documented_for_i64(text, theirs),
        is_sign_and_digits(text),
    ensures
        theirs == native_outcome_for_i64(text),
{
    let digits = unsigned_part(classes(text));
    lemma_digit_run_len(digits, digits.len() as int);
    assert(digits.take(digits.len() as int) =~= digits);
}

/// Parity with the standard library's parser for `i64`: on a text of digits
/// behind an optional sign, a sign alone left out, a parse gives the integer
/// that the standard library documents, or the counterpart of its
/// rejection.
pub proof fn lemma_parity_with_documented(text: Seq<char>, theirs: Result<i64, NativeErrorKind>)
    requires
        documented_for_i64(text, theirs),
        is_sign_and_digits(text),
        !departs_from_native(classes(text), i64::MIN as int),
    ensures
        match theirs {
            Ok(value) => <i64 as FromIter<char, ParseIntError>>::parsed(text) == Ok::<
                i64,
                ParseIntError,
            >(value),
            Err(kind) => counterpart(kind) matches Some(error) && <i64 as FromIter<
                char,
                ParseIntError,
            >>::parsed(text) == Err::<i64, ParseIntError>(error),
        },
{
    lemma_grammar_is_as_documented(text, theirs);
    lemma_parity(classes(text), i64::MIN as int, i64::MAX as int);
}

} // verus!
