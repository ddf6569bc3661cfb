//! Blank-text detection for required string fields.

use vstd::prelude::*;

verus! {

/// Whether `c` has the Unicode `White_Space` property: the characters that
/// `char::is_whitespace` accepts and that `str::trim` removes.
pub open spec fn is_whitespace(c: char) -> bool {
    let code = c as u32;
    ||| 0x09 <= code <= 0x0D
    ||| code == 0x20
    ||| code == 0x85
    ||| code == 0xA0
    ||| code == 0x1680
    ||| 0x2000 <= code <= 0x200A
    ||| code == 0x2028
    ||| code == 0x2029
    ||| code == 0x202F
    ||| code == 0x205F
    ||| code == 0x3000
}

/// Reports whether `c` has the Unicode `White_Space` property.
fn char_is_whitespace(c: char) -> (b: bool)
    ensures
        b == is_whitespace(c),
{
    let code = c as u32;
    (0x09 <= code && code <= 0x0D) || code == 0x20 || code == 0x85 || code == 0xA0 || code
        == 0x1680 || (0x2000 <= code && code <= 0x200A) || code == 0x2028 || code == 0x2029
        || code == 0x202F || code == 0x205F || code == 0x3000
}

/// Whether a text holds nothing but whitespace. A field is blank exactly
/// when trimming its leading and trailing whitespace leaves it empty.
pub open spec fn is_blank(text: Seq<char>) -> bool {
    forall|i: int| 0 <= i < text.len() ==> is_whitespace(#[trigger] text[i])
}

/// Reports whether `text` is empty or all whitespace.
pub(crate) fn blank(text: &str) -> (b: bool)
    ensures
        b == is_blank(text@),
{
    broadcast use vstd::string::axiom_spec_iter;

    for c in it: text.chars()
        invariant
            it.seq() == text@,
            forall|k: int| 0 <= k < it.index() ==> is_whitespace(#[trigger] text@[k]),
    {
        if !char_is_whitespace(c) {
            return false;
        }
    }
    true
}

/// Whether a text holds at least one character that is not whitespace.
pub open spec fn holds_non_whitespace(text: Seq<char>) -> bool {
    exists|i: int| 0 <= i < text.len() && !is_whitespace(text[i])
}

} // verus!
