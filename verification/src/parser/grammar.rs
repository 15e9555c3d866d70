//! Recognition of identifiers, plain or between escape markers.

use vstd::prelude::*;
use vstd::std_specs::iter::IteratorSpec;
use vstd::string::StrSliceExecFns;

verus! {

/// Why a text is not an identifier.
#[derive(Debug, Clone, Copy, PartialEq, Eq, Structural)]
pub enum IdentifierError {
    /// There is nothing to read, or nothing between the escape markers.
    Empty,
    /// A character cannot stand where it does: a digit in first place, or
    /// anything that is neither a letter, a digit nor an underscore.
    InvalidCharacter,
}

/// The escape marker.
pub open spec fn is_marker(c: char) -> bool {
    c == '\\'
}

/// A character that may begin an identifier: an ASCII letter or the
/// underscore.
pub open spec fn is_start(c: char) -> bool {
    ('a' <= c <= 'z') || ('A' <= c <= 'Z') || c == '_'
}

/// A character that may continue an identifier: one that may begin it, or
/// an ASCII digit.
pub open spec fn is_continue(c: char) -> bool {
    is_start(c) || ('0' <= c <= '9')
}

/// Whether `text` stands between a pair of escape markers.
pub open spec fn is_escaped(text: Seq<char>) -> bool {
    text.len() >= 2 && is_marker(text.first()) && is_marker(text.last())
}

/// `text` without the pair of escape markers around it, if it has one.
pub open spec fn unescaped(text: Seq<char>) -> Seq<char> {
    if is_escaped(text) {
        text.subrange(1, text.len() - 1)
    } else {
        text
    }
}

/// A name is an identifier where it is not empty, begins with a letter or
/// an underscore, and goes on with letters, digits and underscores.
pub open spec fn is_identifier(name: Seq<char>) -> bool {
    &&& name.len() > 0
    &&& is_start(name[0])
    &&& forall|i: int| 1 <= i < name.len() ==> is_continue(#[trigger] name[i])
}

/// Whether a character may begin an identifier.
fn may_start(c: char) -> (yes: bool)
    ensures
        yes == is_start(c),
{
    ('a' <= c && c <= 'z') || ('A' <= c && c <= 'Z') || c == '_'
}

/// Whether a character may continue an identifier.
fn may_continue(c: char) -> (yes: bool)
    ensures
        yes == is_continue(c),
{
    may_start(c) || ('0' <= c && c <= '9')
}

/// Recognises an identifier, which may stand between a pair of escape
/// markers, and returns it without them.
pub fn parse_identifier<'a>(text: &'a str) -> (result: Result<&'a str, IdentifierError>)
    ensures
        match result {
            Ok(name) => is_identifier(unescaped(text@)) && name@ == unescaped(text@),
            Err(error) => !is_identifier(unescaped(text@)) && error == if unescaped(text@).len()
                == 0 {
                IdentifierError::Empty
            } else {
                IdentifierError::InvalidCharacter
            },
        },
{
    let len = text.unicode_len();
    let escaped = len >= 2 && text.get_char(0) == '\\' && text.get_char(len - 1) == '\\';
    let name = if escaped {
        text.substring_char(1, len - 1)
    } else {
        text
    };
    let mut chars = name.chars();
    let first = match chars.next() {
        Some(first) => first,
        None => {
            return Err(IdentifierError::Empty);
        },
    };
    if !may_start(first) {
        return Err(IdentifierError::InvalidCharacter);
    }
    let ghost seen: int = 1;
    loop
        invariant
            chars.decrease() is Some,
            name@ == unescaped(text@),
            1 <= seen <= name@.len(),
            chars.remaining() == name@.skip(seen),
            is_start(name@[0]),
            forall|i: int| 1 <= i < seen ==> is_continue(#[trigger] name@[i]),
        decreases chars.decrease()->0,
    {
        let c = match chars.next() {
            Some(c) => c,
            None => {
                return Ok(name);
            },
        };
        if !may_continue(c) {
            return Err(IdentifierError::InvalidCharacter);
        }
        proof {
            seen = seen + 1;
        }
    }
}

} // verus!
