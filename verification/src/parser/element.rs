//! Classification of single input elements.

use vstd::prelude::*;

verus! {

/// What one input element stands for.
#[derive(Debug, Clone, Copy, PartialEq, Eq, Structural)]
pub enum ElementClass {
    /// A decimal digit, with its magnitude.
    Digit(u8),
    /// The marker `+`.
    PositiveSign,
    /// The marker `-`.
    NegativeSign,
    /// Anything else.
    Unrecognized,
}

/// The class of the element whose code is `code`: the ASCII digits, `+` and `-`
/// are recognised, and nothing else is.
pub open spec fn class_of_code(code: int) -> ElementClass {
    if 0x30 <= code <= 0x39 {
        ElementClass::Digit((code - 0x30) as u8)
    } else if code == 0x2B {
        ElementClass::PositiveSign
    } else if code == 0x2D {
        ElementClass::NegativeSign
    } else {
        ElementClass::Unrecognized
    }
}

/// A kind of input element that can be classified.
pub trait Element: Copy {
    /// The code by which an element of this kind is classified.
    spec fn code(self) -> int;

    /// Classifies one element. The result depends on the element alone.
    fn classify(self) -> (class: ElementClass)
        ensures
            class == class_of_code(self.code()),
    ;
}

/// Classifies a character by its code point.
fn classify_char(c: char) -> (class: ElementClass)
    ensures
        class == class_of_code(c as int),
{
    let code: u32 = c as u32;
    if 0x30 <= code && code <= 0x39 {
        ElementClass::Digit((code - 0x30) as u8)
    } else if code == 0x2B {
        ElementClass::PositiveSign
    } else if code == 0x2D {
        ElementClass::NegativeSign
    } else {
        ElementClass::Unrecognized
    }
}

impl Element for char {
    open spec fn code(self) -> int {
        self as int
    }

    fn classify(self) -> (class: ElementClass) {
        classify_char(self)
    }
}

impl Element for u8 {
    open spec fn code(self) -> int {
        self as int
    }

    fn classify(self) -> (class: ElementClass) {
        classify_char(self as char)
    }
}

/// Two classifications of one element agree.
pub proof fn lemma_classification_is_a_function<T: Element>(
    element: T,
    first: ElementClass,
    second: ElementClass,
)
    requires
        call_ensures(T::classify, (element,), first),
        call_ensures(T::classify, (element,), second),
    ensures
        first == second,
{
}

} // verus!

