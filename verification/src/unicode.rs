//! Unicode facts that the validation rules rest on, and the calls that
//! compute them.

use unicode_segmentation::UnicodeSegmentation;
use vstd::prelude::*;

verus! {

/// The number of extended grapheme clusters (user-perceived characters) of a
/// text, as the Unicode text segmentation rules define them.
pub uninterp spec fn grapheme_count(s: Seq<char>) -> nat;

/// Whether a character has the Unicode property `White_Space`.
pub uninterp spec fn is_white_space(c: char) -> bool;

/// Counts the extended grapheme clusters of `s`.
///
/// Trusted: calls `UnicodeSegmentation::graphemes(s, true)` and counts what the
/// iterator yields. The contract only gives that count its name; it depends on
/// the text alone.
#[verifier::external_body]
pub(crate) fn count_graphemes(s: &str) -> (n: usize)
    ensures
        n as nat == grapheme_count(s@),
{
    s.graphemes(true).count()
}

/// Tells whether `c` is white space.
///
/// Trusted: calls `char::is_whitespace`, which answers by the Unicode property
/// `White_Space`. The contract only gives that answer its name.
#[verifier::external_body]
pub(crate) fn char_is_white_space(c: char) -> (b: bool)
    ensures
        b == is_white_space(c),
{
    c.is_whitespace()
}

/// A text is blank when it is empty or holds white space only: trimming it
/// leaves nothing.
pub open spec fn is_blank(s: Seq<char>) -> bool {
    forall|i: int| 0 <= i < s.len() ==> is_white_space(#[trigger] s[i])
}

/// The characters of `s`, in order.
pub fn chars_of(s: &str) -> (v: Vec<char>)
    ensures
        v@ == s@,
{
    let mut v: Vec<char> = Vec::new();
    for c in it: s.chars()
        invariant
            it.seq() == s@,
            v@ == s@.take(it.index() as int),
    {
        v.push(c);
    }
    v
}

} // verus!
