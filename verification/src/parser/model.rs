//! What a parse returns, stated over sequences of element classes.

use crate::parser::element::{class_of_code, Element, ElementClass};
use crate::parser::utils::ParseIntError;
use vstd::prelude::*;

verus! {

/// The classes of a sequence of elements, position by position.
pub open spec fn classes<T: Element>(items: Seq<T>) -> Seq<ElementClass> {
    items.map_values(|item: T| class_of_code(item.code()))
}

/// The magnitude of a digit; zero for every other class.
pub open spec fn digit_of(class: ElementClass) -> nat {
    match class {
        ElementClass::Digit(d) => d as nat,
        _ => 0,
    }
}

/// The number of digits that `classes` begins with.
pub open spec fn digit_run_len(classes: Seq<ElementClass>) -> nat
    decreases classes.len(),
{
    if classes.len() > 0 && classes[0] is Digit {
        1 + digit_run_len(classes.drop_first())
    } else {
        0
    }
}

/// The number that `digits` writes in decimal, most significant digit first.
pub open spec fn decimal_value(digits: Seq<ElementClass>) -> nat
    decreases digits.len(),
{
    if digits.len() == 0 {
        0
    } else {
        10 * decimal_value(digits.drop_last()) + digit_of(digits.last())
    }
}

/// What follows the leading sign marker, or everything where there is none.
pub open spec fn unsigned_part(classes: Seq<ElementClass>) -> Seq<ElementClass> {
    if classes.len() > 0 && (classes[0] is PositiveSign || classes[0] is NegativeSign) {
        classes.drop_first()
    } else {
        classes
    }
}

/// The digits that are read as the number: the longest run of digits at the
/// start of the unsigned part.
pub open spec fn leading_digits(classes: Seq<ElementClass>) -> Seq<ElementClass> {
    let body = unsigned_part(classes);
    body.take(digit_run_len(body) as int)
}

/// The integer that the sign and the leading digits denote.
pub open spec fn signed_value(classes: Seq<ElementClass>) -> int {
    if classes.len() > 0 && classes[0] is NegativeSign {
        -(decimal_value(leading_digits(classes)) as int)
    } else {
        decimal_value(leading_digits(classes)) as int
    }
}

/// The result of parsing `classes` into a type that holds `min ..= max`.
///
/// An empty input is `Empty`. An input that begins with neither a sign nor a
/// digit is `InvalidDigit`. Otherwise the leading digits are read as a number
/// with the sign in front: a number above `max` is `Overflow`, one below
/// `min` is `Underflow`, and only then is anything that follows the digits
/// an `InvalidDigit`. A sign with no digit after it denotes zero.
pub open spec fn outcome(classes: Seq<ElementClass>, min: int, max: int) -> Result<
    int,
    ParseIntError,
> {
    if classes.len() == 0 {
        Err(ParseIntError::Empty)
    } else if classes[0] is Unrecognized {
        Err(ParseIntError::InvalidDigit)
    } else if signed_value(classes) > max {
        Err(ParseIntError::Overflow)
    } else if signed_value(classes) < min {
        Err(ParseIntError::Underflow)
    } else if leading_digits(classes).len() < unsigned_part(classes).len() {
        Err(ParseIntError::InvalidDigit)
    } else {
        Ok(signed_value(classes))
    }
}

/// A sequence that begins with `n` digits, followed by the end or by
/// something else, has a digit run of exactly `n`; with more digits behind
/// them the run is at least `n`.
pub proof fn lemma_digit_run_len(classes: Seq<ElementClass>, n: int)
    requires
        0 <= n <= classes.len(),
        forall|i: int| 0 <= i < n ==> classes[i] is Digit,
    ensures
        digit_run_len(classes) >= n,
        n == classes.len() || !(classes[n] is Digit) ==> digit_run_len(classes) == n,
    decreases n,
{
    if n > 0 {
        lemma_digit_run_len(classes.drop_first(), n - 1);
    }
}

/// Every position inside the digit run holds a digit.
pub proof fn lemma_digit_run_holds_digits(classes: Seq<ElementClass>)
    ensures
        digit_run_len(classes) <= classes.len(),
        forall|i: int| 0 <= i < digit_run_len(classes) ==> classes[i] is Digit,
        digit_run_len(classes) < classes.len() ==> !(classes[digit_run_len(classes) as int]
            is Digit),
    decreases classes.len(),
{
    if classes.len() > 0 && classes[0] is Digit {
        let rest = classes.drop_first();
        lemma_digit_run_holds_digits(rest);
        assert forall|i: int| 0 <= i < digit_run_len(classes) implies classes[i] is Digit by {
            if i > 0 {
                assert(rest[i - 1] == classes[i]);
            }
        }
    }
}

/// Reading one more digit multiplies the value by ten and adds the digit.
pub proof fn lemma_decimal_value_step(digits: Seq<ElementClass>, k: int)
    requires
        0 <= k < digits.len(),
    ensures
        decimal_value(digits.take(k + 1)) == 10 * decimal_value(digits.take(k)) + digit_of(
            digits[k],
        ),
{
    assert(digits.take(k + 1).drop_last() =~= digits.take(k));
}

/// A prefix of a digit sequence never denotes more than the whole.
pub proof fn lemma_decimal_value_grows(digits: Seq<ElementClass>, k: int)
    requires
        0 <= k <= digits.len(),
    ensures
        decimal_value(digits.take(k)) <= decimal_value(digits),
    decreases digits.len() - k,
{
    if k == digits.len() {
        assert(digits.take(k) =~= digits);
    } else {
        lemma_decimal_value_step(digits, k);
        lemma_decimal_value_grows(digits, k + 1);
    }
}

} // verus!
