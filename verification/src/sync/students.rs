//! Normalization of the student names the remote directory lists: each name
//! arrives as one capitalized string, is re-cased word by word, and is then
//! split into a first and a last name at its last space.

use vstd::prelude::*;
use vstd::string::{StrSliceExecFns, StringExecFns};

use crate::text::{is_alphabetic, spec_alphabetic, spec_lower, to_lowercase};

verus! {

/// The length of the first inclusive chunk of a string: its alphabetic
/// prefix plus the one non-letter that ends it, or the whole string if it
/// is all letters.
pub open spec fn spec_word_end(s: Seq<char>) -> int
    decreases s.len(),
{
    if s.len() == 0 {
        0
    } else if !spec_alphabetic(s[0]) {
        1
    } else {
        1 + spec_word_end(s.drop_first())
    }
}

/// The first chunk is never empty and never overruns the string.
pub proof fn lemma_word_end_bounds(s: Seq<char>)
    ensures
        s.len() == 0 ==> spec_word_end(s) == 0,
        s.len() > 0 ==> 1 <= spec_word_end(s) <= s.len(),
    decreases s.len(),
{
    if s.len() > 0 && spec_alphabetic(s[0]) {
        lemma_word_end_bounds(s.drop_first());
    }
}

/// Where the first chunk ends, given a scan: if the first `p` characters
/// are letters and the one after them (if any) is not, the chunk ends
/// right after that non-letter, or at the end of the string.
pub proof fn lemma_word_end_scan(s: Seq<char>, p: int)
    requires
        0 <= p <= s.len(),
        forall|m: int| 0 <= m < p ==> spec_alphabetic(s[m]),
        p < s.len() ==> !spec_alphabetic(s[p]),
    ensures
        spec_word_end(s) == if p < s.len() {
            p + 1
        } else {
            s.len() as int
        },
    decreases s.len(),
{
    if s.len() > 0 && p > 0 {
        let t = s.drop_first();
        assert(forall|m: int| 0 <= m < p - 1 ==> spec_alphabetic(#[trigger] t[m]));
        lemma_word_end_scan(t, p - 1);
    }
}

/// The title-cased form of a name: within each inclusive chunk — a run of
/// letters together with the single non-letter that ends it — the first
/// character is kept as it is and the rest is lowercased.
pub open spec fn spec_titlecase(s: Seq<char>) -> Seq<char>
    decreases s.len(),
    via spec_titlecase_decreases
{
    if s.len() == 0 {
        Seq::empty()
    } else {
        let k = spec_word_end(s);
        seq![s[0]] + spec_lower(s.subrange(1, k)) + spec_titlecase(
            s.subrange(k, s.len() as int),
        )
    }
}

#[via_fn]
proof fn spec_titlecase_decreases(s: Seq<char>) {
    lemma_word_end_bounds(s);
}

/// The position of the last space of a string, if it has one.
pub open spec fn spec_rsplit_space(t: Seq<char>) -> Option<int>
    decreases t.len(),
{
    if t.len() == 0 {
        None
    } else if t[t.len() - 1] == ' ' {
        Some(t.len() - 1)
    } else {
        spec_rsplit_space(t.drop_last())
    }
}

/// Splits a listed student name into its first and last name.
///
/// The name is first title-cased chunk by chunk, then split at its last
/// space: what follows the space is the first name, what precedes it the
/// last name. A name with no space at all cannot be split and yields
/// nothing; the import then fails for that student.
pub fn separate_names(name: &str) -> (r: Option<(String, String)>)
    ensures
        ({
            let t = spec_titlecase(name@);
            match r {
                Some(pair) => spec_rsplit_space(t) matches Some(k) && pair.1@ == t.subrange(0, k)
                    && pair.0@ == t.subrange(k + 1, t.len() as int),
                None => spec_rsplit_space(t) is None,
            }
        }),
{
    let n = name.unicode_len();
    let mut out = String::new();
    proof {
        assert(name@.subrange(0, n as int) =~= name@);
        assert(out@ + spec_titlecase(name@) =~= spec_titlecase(name@));
    }
    let mut i: usize = 0;
    while i < n
        invariant
            i <= n,
            n == name@.len(),
            spec_titlecase(name@) == out@ + spec_titlecase(name@.subrange(i as int, n as int)),
        decreases n - i,
    {
        let mut j: usize = i;
        while j < n && is_alphabetic(name.get_char(j))
            invariant
                i <= j <= n,
                n == name@.len(),
                forall|m: int| i <= m < j ==> spec_alphabetic(name@[m]),
            decreases n - j,
        {
            j = j + 1;
        }
        let end: usize = if j < n {
            j + 1
        } else {
            n
        };
        proof {
            let suf = name@.subrange(i as int, n as int);
            assert(forall|m: int| 0 <= m < j - i ==> spec_alphabetic(#[trigger] suf[m]));
            lemma_word_end_scan(suf, j - i);
            assert(spec_word_end(suf) == end - i);
        }
        let first = name.substring_char(i, i + 1);
        let rest = name.substring_char(i + 1, end);
        let low = to_lowercase(rest);
        out.append(first);
        out.append(low.as_str());
        proof {
            let suf = name@.subrange(i as int, n as int);
            let k = spec_word_end(suf);
            assert(seq![suf[0]] =~= name@.subrange(i as int, i + 1 as int));
            assert(suf.subrange(1, k) =~= name@.subrange(i + 1 as int, end as int));
            assert(suf.subrange(k, suf.len() as int) =~= name@.subrange(end as int, n as int));
            assert(spec_titlecase(suf) == seq![suf[0]] + spec_lower(suf.subrange(1, k))
                + spec_titlecase(suf.subrange(k, suf.len() as int)));
            assert(spec_titlecase(name@) =~= out@ + spec_titlecase(
                name@.subrange(end as int, n as int),
            ));
        }
        i = end;
    }
    proof {
        assert(name@.subrange(i as int, n as int).len() == 0);
        assert(out@ =~= out@ + spec_titlecase(name@.subrange(i as int, n as int)));
        assert(out@ == spec_titlecase(name@));
    }
    let m = out.unicode_len();
    proof {
        assert(out@.subrange(0, m as int) =~= out@);
    }
    let mut k: usize = m;
    while k > 0
        invariant
            k <= m,
            m == out@.len(),
            out@ == spec_titlecase(name@),
            spec_rsplit_space(out@) == spec_rsplit_space(out@.subrange(0, k as int)),
        decreases k,
    {
        if out.as_str().get_char(k - 1) == ' ' {
            proof {
                assert(out@.subrange(0, k as int)[k - 1] == out@[k - 1]);
                assert(spec_rsplit_space(out@.subrange(0, k as int)) == Some(k - 1 as int));
            }
            let last = String::from_str(out.as_str().substring_char(0, k - 1));
            let first = String::from_str(out.as_str().substring_char(k, m));
            return Some((first, last));
        }
        proof {
            assert(out@.subrange(0, k as int).drop_last() =~= out@.subrange(0, k - 1 as int));
        }
        k = k - 1;
    }
    proof {
        assert(out@.subrange(0, 0).len() == 0);
    }
    None
}

} // verus!
