//! Parsing an integer out of an iterator of characters or of bytes.

use crate::parser::accumulator::Accumulator;
use crate::parser::element::{Element, ElementClass};
use crate::parser::model::{
    classes, decimal_value, lemma_decimal_value_grows, lemma_decimal_value_step,
    leading_digits, lemma_digit_run_holds_digits, lemma_digit_run_len, outcome, unsigned_part,
};
use vstd::prelude::*;
use vstd::std_specs::iter::IteratorSpec;

verus! {

/// Why an input was not parsed.
#[derive(Debug, Clone, Copy, PartialEq, Eq, Structural)]
pub enum ParseIntError {
    /// The input had no element.
    Empty,
    /// An element was neither a digit nor a sign in first place.
    InvalidDigit,
    /// The number is above the largest value of the target type.
    Overflow,
    /// The number is below the smallest value of the target type.
    Underflow,
}

/// Construction of a value from the items that an iterator yields.
pub trait FromIter<T, E> where Self: Sized {
    /// What `from_iter` returns on an iterator that yields `items`.
    spec fn parsed(items: Seq<T>) -> Result<Self, E>;

    /// Consumes the iterator and parses what it yields.
    fn from_iter<I: Iterator<Item = T>>(iter: I) -> (result: Result<Self, E>)
        requires
            iter.obeys_prophetic_iter_laws(),
            iter.decrease() is Some,
        ensures
            result == Self::parsed(iter.remaining()),
    ;
}

/// The target value or the rejection that the classes of an input lead to.
pub open spec fn parsed_as<A: Accumulator>(classes: Seq<ElementClass>) -> Result<
    A,
    ParseIntError,
> {
    match outcome(classes, A::min_value(), A::max_value()) {
        Ok(value) => Ok(A::from_value(value)),
        Err(error) => Err(error),
    }
}

impl<A: Accumulator, T: Element> FromIter<T, ParseIntError> for A {
    open spec fn parsed(items: Seq<T>) -> Result<A, ParseIntError> {
        parsed_as::<A>(classes(items))
    }

    fn from_iter<I: Iterator<Item = T>>(iter: I) -> (result: Result<A, ParseIntError>) {
        let mut rest = iter;
        let ghost items = iter.remaining();
        let ghost all = classes(items);
        let ghost body = unsigned_part(all);
        let first = match rest.next() {
            Some(first) => first,
            None => {
                return Err(ParseIntError::Empty);
            },
        };
        let (positive, mut res) = match first.classify() {
            ElementClass::PositiveSign => (true, A::zero()),
            ElementClass::NegativeSign => (false, A::zero()),
            ElementClass::Digit(d) => (true, A::from_digit(d)),
            ElementClass::Unrecognized => {
                return Err(ParseIntError::InvalidDigit);
            },
        };
        let ghost start: int = if all[0] is Digit { 0 } else { 1 };
        let ghost seen: int = 1 - start;
        proof {
            A::lemma_range_holds_digits();
            if seen == 1 {
                lemma_decimal_value_step(body, 0);
            }
            assert(rest.remaining() =~= items.skip(1));
        }
        loop
            invariant
                rest.obeys_prophetic_iter_laws(),
                rest.decrease() is Some,
                items == iter.remaining(),
                all == classes(items),
                body == unsigned_part(all),
                all.len() > 0,
                !(all[0] is Unrecognized),
                positive == !(all[0] is NegativeSign),
                start == all.len() - body.len(),
                0 <= start <= 1,
                0 <= seen <= body.len(),
                rest.remaining() == items.skip(start + seen),
                forall|i: int| 0 <= i < seen ==> body[i] is Digit,
                positive ==> res.value() == decimal_value(body.take(seen)),
                !positive ==> res.value() == -(decimal_value(body.take(seen)) as int),
                A::min_value() <= 0,
                9 <= A::max_value(),
            decreases rest.decrease()->0,
        {
            let c = match rest.next() {
                Some(c) => c,
                None => {
                    proof {
                        res.lemma_value_in_range();
                        lemma_digit_run_len(body, seen);
                        A::lemma_from_value(res.value());
                        A::from_value(res.value()).lemma_value_is_injective(res);
                    }
                    return Ok(res);
                },
            };
            let d = match c.classify() {
                ElementClass::Digit(d) => d,
                _ => {
                    proof {
                        res.lemma_value_in_range();
                        lemma_digit_run_len(body, seen);
                    }
                    return Err(ParseIntError::InvalidDigit);
                },
            };
            proof {
                lemma_digit_run_len(body, seen + 1);
                lemma_digit_run_holds_digits(body);
                lemma_decimal_value_step(body, seen);
                let run = leading_digits(all);
                lemma_decimal_value_grows(run, seen + 1);
                assert(run.take(seen + 1) =~= body.take(seen + 1));
            }
            res = match res.checked_mul_ten() {
                Some(product) => product,
                None => {
                    return Err(
                        if positive {
                            ParseIntError::Overflow
                        } else {
                            ParseIntError::Underflow
                        },
                    );
                },
            };
            if positive {
                res = match res.checked_add_digit(d) {
                    Some(sum) => sum,
                    None => {
                        return Err(ParseIntError::Overflow);
                    },
                };
            } else {
                res = match res.checked_sub_digit(d) {
                    Some(difference) => difference,
                    None => {
                        return Err(ParseIntError::Underflow);
                    },
                };
            }
            proof {
                seen = seen + 1;
            }
        }
    }
}

} // verus!
