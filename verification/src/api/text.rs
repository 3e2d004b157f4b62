use vstd::prelude::*;

verus! {

/// Whether a character has the Unicode `White_Space` property, as
/// `char::is_whitespace` decides it.
pub uninterp spec fn unicode_white_space(c: char) -> bool;

/// A text made of white space only (the empty text among them).
pub open spec fn is_blank(text: Seq<char>) -> bool {
    forall|i: int| 0 <= i < text.len() ==> unicode_white_space(#[trigger] text[i])
}

/// An optional field that holds some text other than white space.
pub open spec fn has_text(value: Option<String>) -> bool {
    match value {
        Some(s) => !is_blank(s@),
        None => false,
    }
}

/// A field holds text exactly when it is present and one of its characters
/// is not white space.
pub proof fn has_text_means_a_non_white_character(value: Option<String>)
    ensures
        has_text(value) <==> (value matches Some(s) && exists|i: int|
            0 <= i < s@.len() && !unicode_white_space(#[trigger] s@[i])),
{
}

/// Calls `char::is_whitespace`, which answers whether `c` has the Unicode
/// `White_Space` property. Claimed of it: the answer is the name
/// `unicode_white_space(c)`; and below U+0080 the property holds exactly for
/// the space and for U+0009..U+000D, as the Unicode character database lists.
#[verifier::external_body]
pub(crate) fn char_is_whitespace(c: char) -> (r: bool)
    ensures
        r == unicode_white_space(c),
        c <= '\x7f' ==> (r <==> (c == ' ' || ('\t' <= c && c <= '\r'))),
{
    c.is_whitespace()
}

/// Whether an optional field holds a character that is not white space,
/// which is what `!s.trim().is_empty()` tells of a present text.
pub fn field_has_text(value: &Option<String>) -> (res: bool)
    ensures
        res == has_text(*value),
{
    match value {
        None => false,
        Some(s) => {
            for c in it: s.chars()
                invariant
                    it.seq() == s@,
                    has_text(*value) == !is_blank(s@),
                    forall|j: int| 0 <= j < it.index() ==> unicode_white_space(#[trigger] s@[j]),
            {
                if !char_is_whitespace(c) {
                    return true;
                }
            }
            false
        },
    }
}

} // verus!
