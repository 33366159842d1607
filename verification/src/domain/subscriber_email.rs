//! A subscriber's email address, and the grammar it obeys.
//!
//! An address is `local-part@domain` with exactly one `@`. The local part is
//! not empty and is made of ASCII letters, digits and the signs
//! ``.!#$%&'*+/=?^_`{|}~-``. The domain is made of labels joined by dots, at
//! least two of them; a label is not empty, is made of ASCII letters, digits
//! and hyphens, and neither starts nor ends with a hyphen.

use crate::unicode::chars_of;
use vstd::prelude::*;
use vstd::string::StringExecFns;

verus! {

/// ASCII letters and digits.
pub open spec fn is_alnum(c: char) -> bool {
    ('a' <= c && c <= 'z') || ('A' <= c && c <= 'Z') || ('0' <= c && c <= '9')
}

/// The characters that a local part is made of.
pub open spec fn is_local_char(c: char) -> bool {
    is_alnum(c) || c == '.' || c == '!' || c == '#' || c == '$' || c == '%' || c == '&' || c
        == '\'' || c == '*' || c == '+' || c == '/' || c == '=' || c == '?' || c == '^' || c == '_'
        || c == '`' || c == '{' || c == '|' || c == '}' || c == '~' || c == '-'
}

/// A local part: not empty, made of local-part characters only.
pub open spec fn local_part_ok(l: Seq<char>) -> bool {
    &&& l.len() >= 1
    &&& forall|i: int| 0 <= i < l.len() ==> is_local_char(#[trigger] l[i])
}

/// Whether the character at `i` may stand there in the domain `d`: a letter
/// or a digit anywhere; a hyphen or a dot only inside, and a dot only between
/// two letters or digits.
pub open spec fn domain_char_ok(d: Seq<char>, i: int) -> bool {
    ||| is_alnum(d[i])
    ||| {
        &&& d[i] == '-' || d[i] == '.'
        &&& 0 < i < d.len() - 1
        &&& d[i] == '.' ==> is_alnum(d[i - 1]) && is_alnum(d[i + 1])
    }
}

/// Whether `d` holds a dot.
pub open spec fn has_dot(d: Seq<char>) -> bool {
    exists|k: int| 0 <= k < d.len() && #[trigger] d[k] == '.'
}

/// A domain: it holds a dot, and every character may stand where it does.
pub open spec fn domain_ok(d: Seq<char>) -> bool {
    &&& has_dot(d)
    &&& forall|i: int| 0 <= i < d.len() ==> #[trigger] domain_char_ok(d, i)
}

/// Whether `s` is an address whose one `@` stands at `p`.
pub open spec fn email_splits_at(s: Seq<char>, p: int) -> bool {
    &&& 0 <= p < s.len()
    &&& s[p] == '@'
    &&& forall|i: int| 0 <= i < s.len() && i != p ==> #[trigger] s[i] != '@'
    &&& local_part_ok(s.subrange(0, p))
    &&& domain_ok(s.subrange(p + 1, s.len() as int))
}

/// What makes a text an email address.
pub open spec fn email_is_valid(s: Seq<char>) -> bool {
    exists|p: int| email_splits_at(s, p)
}

/// The message that a rejected address is answered with.
pub open spec fn invalid_email_message() -> Seq<char> {
    "invalid subscriber email"@
}

/// A text without `@` is no address.
pub proof fn lemma_email_needs_at_sign(s: Seq<char>)
    requires
        forall|i: int| 0 <= i < s.len() ==> #[trigger] s[i] != '@',
    ensures
        !email_is_valid(s),
{
}

/// A text in which no dot follows an `@` is no address: the domain must hold
/// a dot.
pub proof fn lemma_email_needs_dotted_domain(s: Seq<char>)
    requires
        forall|p: int, q: int| 0 <= p < q < s.len() && s[p] == '@' ==> s[q] != '.',
    ensures
        !email_is_valid(s),
{
    assert forall|p: int| !email_splits_at(s, p) by {
        if email_splits_at(s, p) {
            let d = s.subrange(p + 1, s.len() as int);
            let k = choose|k: int| 0 <= k < d.len() && #[trigger] d[k] == '.';
            assert(s[p + 1 + k] == '.');
        }
    }
}

/// The empty text is no address.
pub proof fn lemma_empty_is_no_email()
    ensures
        !email_is_valid(Seq::<char>::empty()),
{
}

/// Tells whether `c` is an ASCII letter or digit.
pub fn is_alnum_char(c: char) -> (b: bool)
    ensures
        b == is_alnum(c),
{
    ('a' <= c && c <= 'z') || ('A' <= c && c <= 'Z') || ('0' <= c && c <= '9')
}

/// Tells whether `c` may stand in a local part.
pub fn is_local_part_char(c: char) -> (b: bool)
    ensures
        b == is_local_char(c),
{
    is_alnum_char(c) || c == '.' || c == '!' || c == '#' || c == '$' || c == '%' || c == '&' || c
        == '\'' || c == '*' || c == '+' || c == '/' || c == '=' || c == '?' || c == '^' || c == '_'
        || c == '`' || c == '{' || c == '|' || c == '}' || c == '~' || c == '-'
}

/// Finds the first `@` of `chars`.
pub fn find_at_sign(chars: &Vec<char>) -> (r: Option<usize>)
    ensures
        match r {
            Some(p) => p < chars.len() && chars@[p as int] == '@' && forall|i: int|
                0 <= i < p ==> #[trigger] chars@[i] != '@',
            None => forall|i: int| 0 <= i < chars.len() ==> #[trigger] chars@[i] != '@',
        },
{
    let mut i: usize = 0;
    while i < chars.len()
        invariant
            i <= chars.len(),
            forall|k: int| 0 <= k < i ==> #[trigger] chars@[k] != '@',
        decreases chars.len() - i,
    {
        if chars[i] == '@' {
            return Some(i);
        }
        i += 1;
    }
    None
}

/// Tells whether the first `end` characters of `chars` are a local part.
pub fn is_valid_local_part(chars: &Vec<char>, end: usize) -> (b: bool)
    requires
        end <= chars.len(),
    ensures
        b == local_part_ok(chars@.subrange(0, end as int)),
{
    let ghost l = chars@.subrange(0, end as int);
    if end == 0 {
        return false;
    }
    let mut i: usize = 0;
    while i < end
        invariant
            i <= end <= chars.len(),
            l == chars@.subrange(0, end as int),
            forall|k: int| 0 <= k < i ==> is_local_char(#[trigger] l[k]),
        decreases end - i,
    {
        if !is_local_part_char(chars[i]) {
            assert(!is_local_char(l[i as int]));
            return false;
        }
        i += 1;
    }
    true
}

/// Tells whether the characters of `chars` from `start` on are a domain.
pub fn is_valid_domain(chars: &Vec<char>, start: usize) -> (b: bool)
    requires
        start <= chars.len(),
    ensures
        b == domain_ok(chars@.subrange(start as int, chars.len() as int)),
{
    let ghost d = chars@.subrange(start as int, chars.len() as int);
    let n: usize = chars.len();
    let mut seen_dot = false;
    let mut i: usize = start;
    while i < n
        invariant
            start <= i <= n,
            n == chars.len(),
            d == chars@.subrange(start as int, n as int),
            forall|k: int| 0 <= k < i - start ==> #[trigger] domain_char_ok(d, k),
            seen_dot == (exists|k: int| 0 <= k < i - start && #[trigger] d[k] == '.'),
        decreases n - i,
    {
        let c = chars[i];
        let ghost at = i - start;
        assert(d[at] == c);
        if !is_alnum_char(c) {
            if c != '-' && c != '.' {
                assert(!domain_char_ok(d, at));
                return false;
            }
            if i == start || i + 1 == n {
                assert(!domain_char_ok(d, at));
                return false;
            }
            if c == '.' {
                if !is_alnum_char(chars[i - 1]) || !is_alnum_char(chars[i + 1]) {
                    assert(!domain_char_ok(d, at));
                    return false;
                }
                seen_dot = true;
            }
        }
        assert(domain_char_ok(d, at));
        i += 1;
    }
    seen_dot
}

/// Tells whether `chars` is an email address.
pub fn is_valid_email(chars: &Vec<char>) -> (ok: bool)
    ensures
        ok == email_is_valid(chars@),
{
    match find_at_sign(chars) {
        None => false,
        Some(p) => {
            let ok = is_valid_local_part(chars, p) && is_valid_domain(chars, p + 1);
            proof {
                let s = chars@;
                let d = s.subrange(p + 1, s.len() as int);
                if ok {
                    assert forall|i: int| 0 <= i < s.len() && i != p implies #[trigger] s[i]
                        != '@' by {
                        if i > p {
                            assert(domain_char_ok(d, i - p - 1));
                        }
                    }
                    assert(email_splits_at(s, p as int));
                } else {
                    assert forall|q: int| !email_splits_at(s, q) by {
                        if email_splits_at(s, q) {
                            assert(q == p);
                        }
                    }
                }
            }
            ok
        },
    }
}

/// An email address that passed validation. It cannot be changed afterwards.
pub struct SubscriberEmail {
    value: String,
}

impl SubscriberEmail {
    /// The address's text.
    pub closed spec fn view(&self) -> Seq<char> {
        self.value@
    }

    #[verifier::type_invariant]
    spec fn holds_valid_text(&self) -> bool {
        email_is_valid(self.value@)
    }

    /// Makes an address of `s` if `s` obeys the grammar, and rejects it
    /// otherwise: so a text without `@`, or with no dot after it, is rejected.
    pub fn parse(s: String) -> (r: Result<SubscriberEmail, String>)
        ensures
            r is Ok <==> email_is_valid(s@),
            r is Ok ==> r->Ok_0@ == s@,
            r is Err ==> r->Err_0@ == invalid_email_message(),
            (forall|i: int| 0 <= i < s@.len() ==> #[trigger] s@[i] != '@') ==> r is Err,
            (forall|p: int, q: int| 0 <= p < q < s@.len() && s@[p] == '@' ==> s@[q] != '.')
                ==> r is Err,
    {
        proof {
            if forall|i: int| 0 <= i < s@.len() ==> #[trigger] s@[i] != '@' {
                lemma_email_needs_at_sign(s@);
            }
            if forall|p: int, q: int| 0 <= p < q < s@.len() && s@[p] == '@' ==> s@[q] != '.' {
                lemma_email_needs_dotted_domain(s@);
            }
        }
        let chars = chars_of(s.as_str());
        if is_valid_email(&chars) {
            Ok(SubscriberEmail { value: s })
        } else {
            Err(String::from_str("invalid subscriber email"))
        }
    }

    /// The address's text, which is a valid address.
    pub fn as_ref(&self) -> (s: &str)
        ensures
            s@ == self@,
            email_is_valid(s@),
    {
        proof {
            use_type_invariant(self);
        }
        self.value.as_str()
    }
}

} // verus!
