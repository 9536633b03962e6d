//! Indices as they are written in the source.

use vstd::prelude::*;

verus! {

/// Whether a text is one or more decimal digits.
pub open spec fn is_digits(text: Seq<char>) -> bool {
    &&& text.len() > 0
    &&& forall|i: int| 0 <= i < text.len() ==> '0' <= #[trigger] text[i] <= '9'
}

/// The number that decimal digits stand for.
pub open spec fn digits_value(text: Seq<char>) -> int
    decreases text.len(),
{
    if text.len() == 0 {
        0
    } else {
        digits_value(text.drop_last()) * 10 + (text.last() as int - '0' as int)
    }
}

/// The digits of a number: all of the text but a leading plus sign.
pub open spec fn unsigned_part(text: Seq<char>) -> Seq<char> {
    if text.len() > 0 && text[0] == '+' {
        text.skip(1)
    } else {
        text
    }
}

/// The index that a text stands for, where it stands for one.
pub open spec fn written_index(text: Seq<char>) -> Option<usize> {
    let digits = unsigned_part(text);
    if is_digits(digits) && digits_value(digits) <= usize::MAX {
        Some(digits_value(digits) as usize)
    } else {
        None
    }
}

/// `str::parse::<usize>`: accepts decimal digits, of which there must be at least one, with or
/// without one plus sign before them, as long as the number fits; refuses everything else.
#[verifier::external_body]
pub(crate) fn parse_index(text: &str) -> (index: Option<usize>)
    ensures
        index == written_index(text@),
{
    text.parse::<usize>().ok()
}

} // verus!
