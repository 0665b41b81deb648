//! What the rules need to know of text: which characters are white space,
//! and what is left of a text once it is trimmed.

use vstd::prelude::*;

verus! {

/// Whether `c` has the Unicode property `White_Space`.
pub open spec fn is_white_space(c: char) -> bool {
    let n = c as u32;
    (0x9 <= n <= 0xd) || n == 0x20 || n == 0x85 || n == 0xa0 || n == 0x1680 || (0x2000 <= n
        <= 0x200a) || n == 0x2028 || n == 0x2029 || n == 0x202f || n == 0x205f || n == 0x3000
}

/// `text` without its leading white space.
pub open spec fn trimmed_start(text: Seq<char>) -> Seq<char>
    decreases text.len(),
{
    if text.len() > 0 && is_white_space(text[0]) {
        trimmed_start(text.subrange(1, text.len() as int))
    } else {
        text
    }
}

/// `text` without its trailing white space.
pub open spec fn trimmed_end(text: Seq<char>) -> Seq<char>
    decreases text.len(),
{
    if text.len() > 0 && is_white_space(text[text.len() - 1]) {
        trimmed_end(text.subrange(0, text.len() - 1))
    } else {
        text
    }
}

/// `text` without its leading and trailing white space.
pub open spec fn trimmed(text: Seq<char>) -> Seq<char> {
    trimmed_end(trimmed_start(text))
}

/// Whether `text` holds nothing but white space.
pub open spec fn is_blank(text: Seq<char>) -> bool {
    trimmed(text).len() == 0
}

/// `str::trim` of the standard library. Trusted: the result is the text
/// between the first and the last character that is not white space, where
/// white space is what Unicode's `White_Space` property says.
#[verifier::external_body]
pub(crate) fn trim(text: &str) -> (res: &str)
    ensures
        res@ == trimmed(text@),
{
    text.trim()
}

/// Whether `text` holds nothing but white space.
pub fn blank(text: &str) -> (res: bool)
    ensures
        res == is_blank(text@),
{
    trim(text).is_empty()
}

/// A text that begins and ends with a character that is not white space is
/// its own trimmed form.
pub proof fn trimmed_is_identity(text: Seq<char>)
    requires
        text.len() > 0,
        !is_white_space(text[0]),
        !is_white_space(text[text.len() - 1]),
    ensures
        trimmed(text) == text,
        !is_blank(text),
{
}

/// The empty text is blank.
pub proof fn empty_is_blank()
    ensures
        is_blank(Seq::<char>::empty()),
{
}

} // verus!
