//! The strategies for reading a decimal number that are measured against
//! each other, one run of each.

use crate::parser::element::{class_of_code, Element, ElementClass};
use crate::parser::model::{classes, decimal_value};
use crate::parser::native::{documented_for_i64, NativeErrorKind};
use crate::parser::utils::{FromIter, ParseIntError};
use itertools::Itertools;
use std::num::IntErrorKind;
use vstd::prelude::*;
use vstd::std_specs::iter::IteratorSpec;
use vstd::string::{StrSliceExecFns, StringSliceAdditionalSpecFns};

verus! {

/// The predicate that holds of every character but the underscore.
pub open spec fn is_kept() -> spec_fn(char) -> bool {
    |c: char| c != '_'
}

/// `text` with its underscores left out.
pub open spec fn without_underscores(text: Seq<char>) -> Seq<char> {
    text.filter(is_kept())
}

/// The digit that a character stands for, if it stands for one.
pub open spec fn digit_option(c: char) -> Option<u8> {
    match class_of_code(c as int) {
        ElementClass::Digit(d) => Some(d),
        _ => None,
    }
}

/// The digits of `text`, position by position.
pub open spec fn digit_options(text: Seq<char>) -> Seq<Option<u8>> {
    text.map_values(|c: char| digit_option(c))
}

/// The accumulator after one more digit, in arithmetic that wraps.
pub open spec fn push_digit(acc: i64, digit: u8) -> i64 {
    acc.wrapping_mul(10).wrapping_add(digit as i64)
}

/// The step of a fold over optional digits, on a digit that is there.
pub open spec fn push_some() -> spec_fn(i64, Option<u8>) -> i64 {
    |acc: i64, digit: Option<u8>| push_digit(acc, digit->0)
}

/// Folding optional digits from `start`: nothing where one of them is
/// missing, else the accumulator after all of them.
pub open spec fn folded_options(digits: Seq<Option<u8>>, start: i64) -> Option<i64> {
    if exists|i: int| 0 <= i < digits.len() && digits[i] is None {
        None
    } else {
        Some(digits.fold_left(start, push_some()))
    }
}

/// What the unchecked strategies return: the underscores are skipped, any
/// other character that is no digit gives nothing, and the digits are
/// accumulated in arithmetic that wraps.
pub open spec fn unchecked_outcome(text: Seq<char>) -> Option<i64> {
    folded_options(digit_options(without_underscores(text)), 0)
}

/// Where a text is digits alone and the number they write fits, folding its
/// digits in arithmetic that wraps gives that number.
pub proof fn lemma_fold_reads_what_fits(digits: Seq<char>)
    requires
        forall|i: int| 0 <= i < digits.len() ==> digit_option(digits[i]) is Some,
        decimal_value(classes(digits)) <= i64::MAX,
    ensures
        folded_options(digit_options(digits), 0) == Some(decimal_value(classes(digits)) as i64),
    decreases digits.len(),
{
    if digits.len() > 0 {
        let shorter = digits.drop_last();
        assert(classes(digits).drop_last() =~= classes(shorter));
        assert(digit_options(digits).drop_last() =~= digit_options(shorter));
        lemma_fold_reads_what_fits(shorter);
    }
}

/// Accumulates one digit, wrapping on overflow.
pub fn push_digit_wrapping(acc: i64, digit: u8) -> (next: i64)
    ensures
        next == push_digit(acc, digit),
{
    acc.wrapping_mul(10).wrapping_add(digit as i64)
}

/// The library's parser on the characters of `data`.
pub fn bench_char_impl(data: &str) -> (result: Result<i64, ParseIntError>)
    ensures
        result == <i64 as FromIter<char, ParseIntError>>::parsed(data@),
{
    i64::from_iter(data.chars())
}

/// The library's parser on the bytes of `data`.
pub fn bench_u8_impl(data: &str) -> (result: Result<i64, ParseIntError>)
    ensures
        result == <i64 as FromIter<u8, ParseIntError>>::parsed(data.spec_bytes()),
{
    i64::from_iter(data.as_bytes_vec().into_iter())
}

/// One more character behind `text` adds its digit behind the digits of
/// `text` where it is kept, and nothing where it is an underscore.
pub proof fn lemma_digit_options_step(text: Seq<char>, k: int)
    requires
        0 <= k < text.len(),
    ensures
        digit_options(without_underscores(text.take(k + 1))) == if text[k] == '_' {
            digit_options(without_underscores(text.take(k)))
        } else {
            digit_options(without_underscores(text.take(k))).push(digit_option(text[k]))
        },
{
    reveal(Seq::filter);
    let longer = text.take(k + 1);
    assert(longer.drop_last() =~= text.take(k));
}

/// A digit that is missing among the first characters of `text` is missing
/// in `text`.
pub proof fn lemma_missing_digit_stays(text: Seq<char>, k: int)
    requires
        0 <= k <= text.len(),
        folded_options(digit_options(without_underscores(text.take(k))), 0) is None,
    ensures
        unchecked_outcome(text) is None,
{
    let head = text.take(k);
    let tail = text.skip(k);
    assert(text =~= head + tail);
    Seq::filter_distributes_over_add(head, tail, is_kept());
    let short = digit_options(without_underscores(head));
    let whole = digit_options(without_underscores(text));
    let i = choose|i: int| 0 <= i < short.len() && short[i] is None;
    assert(whole[i] == short[i]);
}

/// Reads the digits of `data` by a loop, skipping underscores, in arithmetic
/// that wraps.
pub fn bench_match(data: &str) -> (result: Option<i64>)
    ensures
        result == unchecked_outcome(data@),
{
    let mut chars = data.chars();
    let ghost text = data@;
    let ghost seen: int = 0;
    let mut a: i64 = 0;
    proof {
        reveal(Seq::filter);
    }
    loop
        invariant
            chars.decrease() is Some,
            text == data@,
            0 <= seen <= text.len(),
            chars.remaining() == text.skip(seen),
            folded_options(digit_options(without_underscores(text.take(seen))), 0) == Some(a),
        decreases chars.decrease()->0,
    {
        let c = match chars.next() {
            Some(c) => c,
            None => {
                assert(text.take(seen) =~= text);
                return Some(a);
            },
        };
        proof {
            lemma_digit_options_step(text, seen);
        }
        if c != '_' {
            let ghost before = digit_options(without_underscores(text.take(seen)));
            let ghost after = before.push(digit_option(c));
            assert(after.drop_last() =~= before);
            match c.classify() {
                ElementClass::Digit(d) => {
                    a = push_digit_wrapping(a, d);
                },
                _ => {
                    proof {
                        lemma_missing_digit_stays(text, seen + 1);
                    }
                    return None;
                },
            }
        }
        proof {
            seen = seen + 1;
        }
    }
}

/// The digit that a character stands for, if it stands for one.
pub fn to_digit(c: char) -> (digit: Option<u8>)
    ensures
        digit == digit_option(c),
{
    match c.classify() {
        ElementClass::Digit(d) => Some(d),
        _ => None,
    }
}

/// `Itertools::fold_options` over a vector of optional digits, with the
/// accumulation of one digit as its step. As the method documents, the
/// result is nothing where one of the items is missing, and else the fold of
/// all of them from `start`.
#[verifier::external_body]
fn fold_digit_options(digits: Vec<Option<u8>>, start: i64) -> (folded: Option<i64>)
    ensures
        folded == folded_options(digits@, start),
{
    digits.into_iter().fold_options(start, |acc, digit| push_digit_wrapping(acc, digit))
}

/// Reads the digits of `data` by a fold over optional digits, skipping
/// underscores, in arithmetic that wraps.
pub fn bench_map(data: &str) -> (result: Option<i64>)
    ensures
        result == unchecked_outcome(data@),
{
    let mut chars = data.chars();
    let ghost text = data@;
    let ghost seen: int = 0;
    let mut digits: Vec<Option<u8>> = Vec::new();
    proof {
        reveal(Seq::filter);
    }
    loop
        invariant
            chars.decrease() is Some,
            text == data@,
            0 <= seen <= text.len(),
            chars.remaining() == text.skip(seen),
            digits@ == digit_options(without_underscores(text.take(seen))),
        decreases chars.decrease()->0,
    {
        let c = match chars.next() {
            Some(c) => c,
            None => {
                assert(text.take(seen) =~= text);
                return fold_digit_options(digits, 0);
            },
        };
        proof {
            lemma_digit_options_step(text, seen);
        }
        if c != '_' {
            digits.push(to_digit(c));
        }
        proof {
            seen = seen + 1;
        }
    }
}

/// `text` with every `from` replaced by `to`.
pub open spec fn replaced_chars(text: Seq<char>, from: char, to: Seq<char>) -> Seq<char>
    decreases text.len(),
{
    if text.len() == 0 {
        text
    } else if text.last() == from {
        replaced_chars(text.drop_last(), from, to) + to
    } else {
        replaced_chars(text.drop_last(), from, to).push(text.last())
    }
}

/// Replacing every underscore by nothing leaves the text without its
/// underscores.
pub proof fn lemma_underscores_replaced_by_nothing(text: Seq<char>)
    ensures
        replaced_chars(text, '_', Seq::empty()) == without_underscores(text),
    decreases text.len(),
{
    reveal(Seq::filter);
    if text.len() > 0 {
        lemma_underscores_replaced_by_nothing(text.drop_last());
    }
}

/// `str::replace` with a character as its pattern: a new string in which
/// every occurrence of `from` in `text` is replaced by `to`.
#[verifier::external_body]
fn replace_char(text: &str, from: char, to: &str) -> (replaced: String)
    ensures
        replaced@ == replaced_chars(text@, from, to@),
{
    text.replace(from, to)
}

/// `str::parse` for `i64`, with the kind of its error told apart. The
/// contract is what the standard library documents of it: see
/// `documented_for_i64`.
#[verifier::external_body]
fn parse_native(text: &str) -> (result: Result<i64, NativeErrorKind>)
    ensures
        documented_for_i64(text@, result),
{
    match text.parse::<i64>() {
        Ok(value) => Ok(value),
        Err(error) => Err(
            match error.kind() {
                IntErrorKind::Empty => NativeErrorKind::Empty,
                IntErrorKind::InvalidDigit => NativeErrorKind::InvalidDigit,
                IntErrorKind::PosOverflow => NativeErrorKind::PosOverflow,
                IntErrorKind::NegOverflow => NativeErrorKind::NegOverflow,
                _ => NativeErrorKind::Other,
            },
        ),
    }
}

/// The standard library's parser on `data`.
pub fn bench_native(data: &str) -> (result: Result<i64, NativeErrorKind>)
    ensures
        documented_for_i64(data@, result),
{
    parse_native(data)
}

/// The standard library's parser on a copy of `data` without its
/// underscores.
pub fn bench_naive(data: &str) -> (result: Result<i64, NativeErrorKind>)
    ensures
        documented_for_i64(without_underscores(data@), result),
{
    let stripped = replace_char(data, '_', "");
    proof {
        reveal_strlit("");
        lemma_underscores_replaced_by_nothing(data@);
        assert(""@ =~= Seq::<char>::empty());
    }
    parse_native(stripped.as_str())
}

} // verus!
