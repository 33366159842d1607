//! A subscriber's name, and the rules it obeys.

use crate::routes::subscriptions::is_valid_name;
use crate::unicode::{char_is_white_space, grapheme_count, is_blank, is_white_space};
use vstd::prelude::*;
use vstd::string::StringExecFns;

verus! {

/// The longest name that is accepted, in grapheme clusters.
pub const MAX_NAME_GRAPHEMES: usize = 256;

/// The characters that no name may hold: `/ ( ) " < > \ { }`.
pub open spec fn is_forbidden(c: char) -> bool {
    c == '/' || c == '(' || c == ')' || c == '"' || c == '<' || c == '>' || c == '\\' || c == '{'
        || c == '}'
}

/// Whether some character of `s` is forbidden.
pub open spec fn has_forbidden_char(s: Seq<char>) -> bool {
    exists|i: int| 0 <= i < s.len() && is_forbidden(#[trigger] s[i])
}

/// What makes a text a name: it is not blank, it has at most
/// `MAX_NAME_GRAPHEMES` grapheme clusters, and none of its characters is
/// forbidden.
pub open spec fn name_is_valid(s: Seq<char>) -> bool {
    &&& !is_blank(s)
    &&& grapheme_count(s) <= MAX_NAME_GRAPHEMES
    &&& !has_forbidden_char(s)
}

/// The message that a rejected name is answered with.
pub open spec fn invalid_name_message() -> Seq<char> {
    "invalid subscriber name"@
}

/// Tells whether `c` is one of the forbidden characters.
pub fn is_forbidden_char(c: char) -> (b: bool)
    ensures
        b == is_forbidden(c),
{
    c == '/' || c == '(' || c == ')' || c == '"' || c == '<' || c == '>' || c == '\\' || c == '{'
        || c == '}'
}

/// Tells whether `chars` is empty or holds white space only.
pub fn is_blank_text(chars: &Vec<char>) -> (b: bool)
    ensures
        b == is_blank(chars@),
{
    let mut i: usize = 0;
    while i < chars.len()
        invariant
            i <= chars.len(),
            forall|k: int| 0 <= k < i ==> is_white_space(#[trigger] chars@[k]),
        decreases chars.len() - i,
    {
        if !char_is_white_space(chars[i]) {
            return false;
        }
        i += 1;
    }
    true
}

/// Tells whether `chars` holds a forbidden character.
pub fn contains_forbidden_char(chars: &Vec<char>) -> (b: bool)
    ensures
        b == has_forbidden_char(chars@),
{
    let mut i: usize = 0;
    while i < chars.len()
        invariant
            i <= chars.len(),
            forall|k: int| 0 <= k < i ==> !is_forbidden(#[trigger] chars@[k]),
        decreases chars.len() - i,
    {
        if is_forbidden_char(chars[i]) {
            return true;
        }
        i += 1;
    }
    false
}

/// A name that passed validation. It cannot be changed afterwards.
pub struct SubscriberName {
    value: String,
}

impl SubscriberName {
    /// The name's text.
    pub closed spec fn view(&self) -> Seq<char> {
        self.value@
    }

    #[verifier::type_invariant]
    spec fn holds_valid_text(&self) -> bool {
        name_is_valid(self.value@)
    }

    /// Makes a name of `s` if `s` obeys the rules for names, and rejects it
    /// otherwise: so a blank text, one of more than `MAX_NAME_GRAPHEMES`
    /// grapheme clusters and one with a forbidden character are rejected.
    pub fn parse(s: String) -> (r: Result<SubscriberName, String>)
        ensures
            r is Ok <==> name_is_valid(s@),
            r is Ok ==> r->Ok_0@ == s@,
            r is Err ==> r->Err_0@ == invalid_name_message(),
            is_blank(s@) ==> r is Err,
            grapheme_count(s@) > MAX_NAME_GRAPHEMES ==> r is Err,
            has_forbidden_char(s@) ==> r is Err,
    {
        if is_valid_name(s.as_str()) {
            Ok(SubscriberName { value: s })
        } else {
            Err(String::from_str("invalid subscriber name"))
        }
    }

    /// The name's text, which is a valid name.
    pub fn as_ref(&self) -> (s: &str)
        ensures
            s@ == self@,
            name_is_valid(s@),
    {
        proof {
            use_type_invariant(self);
        }
        self.value.as_str()
    }
}

} // verus!
