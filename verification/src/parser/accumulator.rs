//! The arithmetic that a parse needs from its target integer type.

use vstd::prelude::*;

verus! {

/// A fixed-width integer type into which digits can be accumulated without
/// ever wrapping: every step either yields the exact result or reports that
/// the result does not fit.
pub trait Accumulator: Copy {
    /// The integer that an accumulator value stands for.
    spec fn value(self) -> int;

    /// The smallest integer the type can hold.
    spec fn min_value() -> int;

    /// The largest integer the type can hold.
    spec fn max_value() -> int;

    /// The accumulator value that stands for `value`, where the type can hold it.
    spec fn from_value(value: int) -> Self;

    /// The type holds zero and every single digit.
    proof fn lemma_range_holds_digits()
        ensures
            Self::min_value() <= 0,
            9 <= Self::max_value(),
    ;

    /// Every accumulator value lies within the type's range.
    proof fn lemma_value_in_range(self)
        ensures
            Self::min_value() <= self.value() <= Self::max_value(),
    ;

    /// Every integer within the type's range is held by `from_value` of it.
    proof fn lemma_from_value(value: int)
        requires
            Self::min_value() <= value <= Self::max_value(),
        ensures
            Self::from_value(value).value() == value,
    ;

    /// Two accumulator values that stand for the same integer are equal.
    proof fn lemma_value_is_injective(self, other: Self)
        requires
            self.value() == other.value(),
        ensures
            self == other,
    ;

    /// The type's zero.
    fn zero() -> (zero: Self)
        ensures
            zero.value() == 0,
    ;

    /// The accumulator that holds a single digit.
    fn from_digit(digit: u8) -> (held: Self)
        requires
            digit <= 9,
        ensures
            held.value() == digit,
    ;

    /// Ten times the accumulator, or `None` where that does not fit.
    fn checked_mul_ten(self) -> (product: Option<Self>)
        ensures
            match product {
                Some(p) => p.value() == 10 * self.value(),
                None => 10 * self.value() < Self::min_value() || Self::max_value() < 10
                    * self.value(),
            },
    ;

    /// The accumulator plus a digit, or `None` where that does not fit.
    fn checked_add_digit(self, digit: u8) -> (sum: Option<Self>)
        requires
            digit <= 9,
        ensures
            match sum {
                Some(s) => s.value() == self.value() + digit,
                None => Self::max_value() < self.value() + digit,
            },
    ;

    /// The accumulator minus a digit, or `None` where that does not fit.
    fn checked_sub_digit(self, digit: u8) -> (difference: Option<Self>)
        requires
            digit <= 9,
        ensures
            match difference {
                Some(d) => d.value() == self.value() - digit,
                None => self.value() - digit < Self::min_value(),
            },
    ;
}

impl Accumulator for i8 {
    open spec fn value(self) -> int {
        self as int
    }

    open spec fn min_value() -> int {
        i8::MIN as int
    }

    open spec fn max_value() -> int {
        i8::MAX as int
    }

    open spec fn from_value(value: int) -> Self {
        value as i8
    }

    proof fn lemma_range_holds_digits() {
    }

    proof fn lemma_value_in_range(self) {
    }

    proof fn lemma_from_value(value: int) {
    }

    proof fn lemma_value_is_injective(self, other: Self) {
    }

    fn zero() -> (zero: Self) {
        0
    }

    fn from_digit(digit: u8) -> (held: Self) {
        digit as i8
    }

    fn checked_mul_ten(self) -> (product: Option<Self>) {
        self.checked_mul(10)
    }

    fn checked_add_digit(self, digit: u8) -> (sum: Option<Self>) {
        self.checked_add(digit as i8)
    }

    fn checked_sub_digit(self, digit: u8) -> (difference: Option<Self>) {
        self.checked_sub(digit as i8)
    }
}

impl Accumulator for i16 {
    open spec fn value(self) -> int {
        self as int
    }

    open spec fn min_value() -> int {
        i16::MIN as int
    }

    open spec fn max_value() -> int {
        i16::MAX as int
    }

    open spec fn from_value(value: int) -> Self {
        value as i16
    }

    proof fn lemma_range_holds_digits() {
    }

    proof fn lemma_value_in_range(self) {
    }

    proof fn lemma_from_value(value: int) {
    }

    proof fn lemma_value_is_injective(self, other: Self) {
    }

    fn zero() -> (zero: Self) {
        0
    }

    fn from_digit(digit: u8) -> (held: Self) {
        digit as i16
    }

    fn checked_mul_ten(self) -> (product: Option<Self>) {
        self.checked_mul(10)
    }

    fn checked_add_digit(self, digit: u8) -> (sum: Option<Self>) {
        self.checked_add(digit as i16)
    }

    fn checked_sub_digit(self, digit: u8) -> (difference: Option<Self>) {
        self.checked_sub(digit as i16)
    }
}

impl Accumulator for i32 {
    open spec fn value(self) -> int {
        self as int
    }

    open spec fn min_value() -> int {
        i32::MIN as int
    }

    open spec fn max_value() -> int {
        i32::MAX as int
    }

    open spec fn from_value(value: int) -> Self {
        value as i32
    }

    proof fn lemma_range_holds_digits() {
    }

    proof fn lemma_value_in_range(self) {
    }

    proof fn lemma_from_value(value: int) {
    }

    proof fn lemma_value_is_injective(self, other: Self) {
    }

    fn zero() -> (zero: Self) {
        0
    }

    fn from_digit(digit: u8) -> (held: Self) {
        digit as i32
    }

    fn checked_mul_ten(self) -> (product: Option<Self>) {
        self.checked_mul(10)
    }

    fn checked_add_digit(self, digit: u8) -> (sum: Option<Self>) {
        self.checked_add(digit as i32)
    }

    fn checked_sub_digit(self, digit: u8) -> (difference: Option<Self>) {
        self.checked_sub(digit as i32)
    }
}

impl Accumulator for i64 {
    open spec fn value(self) -> int {
        self as int
    }

    open spec fn min_value() -> int {
        i64::MIN as int
    }

    open spec fn max_value() -> int {
        i64::MAX as int
    }

    open spec fn from_value(value: int) -> Self {
        value as i64
    }

    proof fn lemma_range_holds_digits() {
    }

    proof fn lemma_value_in_range(self) {
    }

    proof fn lemma_from_value(value: int) {
    }

    proof fn lemma_value_is_injective(self, other: Self) {
    }

    fn zero() -> (zero: Self) {
        0
    }

    fn from_digit(digit: u8) -> (held: Self) {
        digit as i64
    }

    fn checked_mul_ten(self) -> (product: Option<Self>) {
        self.checked_mul(10)
    }

    fn checked_add_digit(self, digit: u8) -> (sum: Option<Self>) {
        self.checked_add(digit as i64)
    }

    fn checked_sub_digit(self, digit: u8) -> (difference: Option<Self>) {
        self.checked_sub(digit as i64)
    }
}

impl Accumulator for u8 {
    open spec fn value(self) -> int {
        self as int
    }

    open spec fn min_value() -> int {
        u8::MIN as int
    }

    open spec fn max_value() -> int {
        u8::MAX as int
    }

    open spec fn from_value(value: int) -> Self {
        value as u8
    }

    proof fn lemma_range_holds_digits() {
    }

    proof fn lemma_value_in_range(self) {
    }

    proof fn lemma_from_value(value: int) {
    }

    proof fn lemma_value_is_injective(self, other: Self) {
    }

    fn zero() -> (zero: Self) {
        0
    }

    fn from_digit(digit: u8) -> (held: Self) {
        digit
    }

    fn checked_mul_ten(self) -> (product: Option<Self>) {
        self.checked_mul(10)
    }

    fn checked_add_digit(self, digit: u8) -> (sum: Option<Self>) {
        self.checked_add(digit)
    }

    fn checked_sub_digit(self, digit: u8) -> (difference: Option<Self>) {
        self.checked_sub(digit)
    }
}

impl Accumulator for u16 {
    open spec fn value(self) -> int {
        self as int
    }

    open spec fn min_value() -> int {
        u16::MIN as int
    }

    open spec fn max_value() -> int {
        u16::MAX as int
    }

    open spec fn from_value(value: int) -> Self {
        value as u16
    }

    proof fn lemma_range_holds_digits() {
    }

    proof fn lemma_value_in_range(self) {
    }

    proof fn lemma_from_value(value: int) {
    }

    proof fn lemma_value_is_injective(self, other: Self) {
    }

    fn zero() -> (zero: Self) {
        0
    }

    fn from_digit(digit: u8) -> (held: Self) {
        digit as u16
    }

    fn checked_mul_ten(self) -> (product: Option<Self>) {
        self.checked_mul(10)
    }

    fn checked_add_digit(self, digit: u8) -> (sum: Option<Self>) {
        self.checked_add(digit as u16)
    }

    fn checked_sub_digit(self, digit: u8) -> (difference: Option<Self>) {
        self.checked_sub(digit as u16)
    }
}

impl Accumulator for u32 {
    open spec fn value(self) -> int {
        self as int
    }

    open spec fn min_value() -> int {
        u32::MIN as int
    }

    open spec fn max_value() -> int {
        u32::MAX as int
    }

    open spec fn from_value(value: int) -> Self {
        value as u32
    }

    proof fn lemma_range_holds_digits() {
    }

    proof fn lemma_value_in_range(self) {
    }

    proof fn lemma_from_value(value: int) {
    }

    proof fn lemma_value_is_injective(self, other: Self) {
    }

    fn zero() -> (zero: Self) {
        0
    }

    fn from_digit(digit: u8) -> (held: Self) {
        digit as u32
    }

    fn checked_mul_ten(self) -> (product: Option<Self>) {
        self.checked_mul(10)
    }

    fn checked_add_digit(self, digit: u8) -> (sum: Option<Self>) {
        self.checked_add(digit as u32)
    }

    fn checked_sub_digit(self, digit: u8) -> (difference: Option<Self>) {
        self.checked_sub(digit as u32)
    }
}

impl Accumulator for u64 {
    open spec fn value(self) -> int {
        self as int
    }

    open spec fn min_value() -> int {
        u64::MIN as int
    }

    open spec fn max_value() -> int {
        u64::MAX as int
    }

    open spec fn from_value(value: int) -> Self {
        value as u64
    }

    proof fn lemma_range_holds_digits() {
    }

    proof fn lemma_value_in_range(self) {
    }

    proof fn lemma_from_value(value: int) {
    }

    proof fn lemma_value_is_injective(self, other: Self) {
    }

    fn zero() -> (zero: Self) {
        0
    }

    fn from_digit(digit: u8) -> (held: Self) {
        digit as u64
    }

    fn checked_mul_ten(self) -> (product: Option<Self>) {
        self.checked_mul(10)
    }

    fn checked_add_digit(self, digit: u8) -> (sum: Option<Self>) {
        self.checked_add(digit as u64)
    }

    fn checked_sub_digit(self, digit: u8) -> (difference: Option<Self>) {
        self.checked_sub(digit as u64)
    }
}

} // verus!
