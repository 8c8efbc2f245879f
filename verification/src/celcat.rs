//! Data model of the remote calendar service: resource and entity kinds, the
//! identifiers they use, the shapes of the requests and replies that the
//! service exchanges, and the verified extraction of the session token from
//! the service's login page.

pub mod entity;
pub mod fetchable;
pub mod resource;

use vstd::prelude::*;
use vstd::string::{StrSliceExecFns, StringExecFns};

verus! {

/// Whether `pat` occurs in `s` at position `i`.
pub open spec fn spec_occurs_at(s: Seq<char>, pat: Seq<char>, i: int) -> bool {
    0 <= i && i + pat.len() <= s.len() && s.subrange(i, i + pat.len()) == pat
}

/// The first position at or after `from` where `pat` occurs in `s`;
/// nothing for an empty pattern.
pub open spec fn spec_find(s: Seq<char>, pat: Seq<char>, from: int) -> Option<int>
    decreases s.len() - from,
{
    if pat.len() == 0 || from < 0 || from + pat.len() > s.len() {
        None
    } else if spec_occurs_at(s, pat, from) {
        Some(from)
    } else {
        spec_find(s, pat, from + 1)
    }
}

/// What a found occurrence means: the pattern stands there, at or after
/// the start of the search.
pub proof fn lemma_find_occurs(s: Seq<char>, pat: Seq<char>, from: int)
    ensures
        spec_find(s, pat, from) matches Some(p) ==> spec_occurs_at(s, pat, p) && from <= p,
    decreases s.len() - from,
{
    if !(pat.len() == 0 || from < 0 || from + pat.len() > s.len()) && !spec_occurs_at(
        s,
        pat,
        from,
    ) {
        lemma_find_occurs(s, pat, from + 1);
    }
}

/// Whether `pat` stands at position `p` of `s`.
fn matches_at(s: &str, pat: &str, p: usize) -> (r: bool)
    requires
        p + pat@.len() <= s@.len(),
    ensures
        r == spec_occurs_at(s@, pat@, p as int),
{
    let n = s.unicode_len();
    let m = pat.unicode_len();
    let mut t: usize = 0;
    while t < m
        invariant
            t <= m,
            n == s@.len(),
            m == pat@.len(),
            p + m <= n,
            forall|q: int| 0 <= q < t ==> s@[p + q] == pat@[q],
        decreases m - t,
    {
        if s.get_char(p + t) != pat.get_char(t) {
            return false;
        }
        t = t + 1;
    }
    proof {
        assert(s@.subrange(p as int, p + pat@.len()) =~= pat@);
    }
    true
}

/// The first occurrence of `pat` in `s` at or after `from`.
pub fn find_sub(s: &str, pat: &str, from: usize) -> (r: Option<usize>)
    requires
        from <= s@.len(),
    ensures
        match r {
            Some(p) => spec_find(s@, pat@, from as int) == Some(p as int),
            None => spec_find(s@, pat@, from as int) is None,
        },
{
    let n = s.unicode_len();
    let m = pat.unicode_len();
    if m == 0 || m > n - from {
        return None;
    }
    let mut p: usize = from;
    while p <= n - m
        invariant
            from <= p,
            p <= n - m + 1,
            n == s@.len(),
            m == pat@.len(),
            1 <= m <= n,
            spec_find(s@, pat@, from as int) == spec_find(s@, pat@, p as int),
        decreases n - p,
    {
        if matches_at(s, pat, p) {
            return Some(p);
        }
        p = p + 1;
    }
    None
}

/// The marker that precedes the verification token field on the login
/// page.
pub open spec fn spec_token_marker() -> Seq<char> {
    "<input name=\"__RequestVerificationToken\""@
}

/// The attribute that carries the token's value.
pub open spec fn spec_value_marker() -> Seq<char> {
    "value=\""@
}

/// Extracts the request verification token from the login page.
///
/// The token is the non-empty text between the first `value="` that
/// follows the token field's marker and the next quote. A page with no
/// marker, no value attribute after it, no closing quote, or an empty
/// value yields nothing, and the login cannot proceed.
pub fn extract_verification_token(body: &str) -> (r: Option<String>)
    ensures
        ({
            match spec_find(body@, spec_token_marker(), 0) {
                None => r is None,
                Some(a) => match spec_find(body@, spec_value_marker(), a
                    + spec_token_marker().len()) {
                    None => r is None,
                    Some(b) => {
                        let start = b + spec_value_marker().len();
                        match spec_find(body@, "\""@, start) {
                            None => r is None,
                            Some(e) => if e == start {
                                r is None
                            } else {
                                r matches Some(t) && t@ == body@.subrange(start, e)
                            },
                        }
                    },
                },
            }
        }),
{
    let marker = "<input name=\"__RequestVerificationToken\"";
    let value = "value=\"";
    let quote = "\"";
    let n = body.unicode_len();
    let a = match find_sub(body, marker, 0) {
        None => {
            return None;
        },
        Some(a) => a,
    };
    proof {
        assert(n == body@.len());
        lemma_find_occurs(body@, marker@, 0);
    }
    let from2 = a + marker.unicode_len();
    let b = match find_sub(body, value, from2) {
        None => {
            return None;
        },
        Some(b) => b,
    };
    proof {
        lemma_find_occurs(body@, value@, from2 as int);
    }
    let start = b + value.unicode_len();
    let e = match find_sub(body, quote, start) {
        None => {
            return None;
        },
        Some(e) => e,
    };
    proof {
        lemma_find_occurs(body@, quote@, start as int);
    }
    if e == start {
        return None;
    }
    Some(String::from_str(body.substring_char(start, e)))
}

} // verus!
