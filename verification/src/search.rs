//! Finding the places at which one character sequence occurs in another,
//! and replacing what stands at one of them.
//!
//! `needle` occurs in `hay` at every index from which on the characters of
//! `hay` begin with `needle`. Occurrences may overlap: `aa` occurs twice in
//! `aaa`. The empty needle occurs at every index, the end included.

use vstd::prelude::*;

verus! {

/// Whether `needle` stands in `hay` at index `i`.
pub open spec fn occurs_at(hay: Seq<char>, needle: Seq<char>, i: int) -> bool {
    0 <= i && i + needle.len() <= hay.len() && hay.subrange(i, i + needle.len()) == needle
}

/// Whether `needle` stands in `hay` at some index.
pub open spec fn occurs(hay: Seq<char>, needle: Seq<char>) -> bool {
    exists|i: int| occurs_at(hay, needle, i)
}

/// Whether `needle` stands in `hay` at two indices or more.
pub open spec fn occurs_twice(hay: Seq<char>, needle: Seq<char>) -> bool {
    exists|i: int, j: int|
        i != j && #[trigger] occurs_at(hay, needle, i) && #[trigger] occurs_at(hay, needle, j)
}

/// The least index at or after `from` at which `needle` stands in `hay`.
pub open spec fn first_match_from(hay: Seq<char>, needle: Seq<char>, from: int) -> Option<int>
    decreases hay.len() - from + 1,
{
    if from < 0 || from + needle.len() > hay.len() {
        None
    } else if occurs_at(hay, needle, from) {
        Some(from)
    } else {
        first_match_from(hay, needle, from + 1)
    }
}

/// The least index at which `needle` stands in `hay`.
pub open spec fn first_match(hay: Seq<char>, needle: Seq<char>) -> Option<int> {
    first_match_from(hay, needle, 0)
}

/// `hay` with the `len` characters from index `at` on replaced by `with`.
pub open spec fn spliced(hay: Seq<char>, at: int, len: int, with: Seq<char>) -> Seq<char> {
    hay.take(at) + with + hay.skip(at + len)
}

/// What a search for a needle found.
pub enum Occurrence {
    /// The needle stands nowhere.
    Absent,
    /// The needle stands at this index and nowhere else.
    Unique(usize),
    /// The needle stands at two indices or more.
    Ambiguous,
}

/// `first_match_from` gives the least occurrence at or after `from`.
pub proof fn lemma_first_match_from(hay: Seq<char>, needle: Seq<char>, from: int)
    requires
        0 <= from,
    ensures
        match first_match_from(hay, needle, from) {
            Some(p) => from <= p && occurs_at(hay, needle, p) && forall|k: int|
                from <= k < p ==> !occurs_at(hay, needle, k),
            None => forall|k: int| from <= k ==> !occurs_at(hay, needle, k),
        },
    decreases hay.len() - from + 1,
{
    if from + needle.len() > hay.len() {
    } else if occurs_at(hay, needle, from) {
    } else {
        lemma_first_match_from(hay, needle, from + 1);
    }
}

/// A needle occurs exactly if a search from the start finds it, and it
/// occurs twice exactly if a search that goes on behind the first
/// occurrence finds it again.
pub proof fn lemma_occurrences(hay: Seq<char>, needle: Seq<char>)
    ensures
        occurs(hay, needle) <==> first_match(hay, needle) is Some,
        first_match(hay, needle) matches Some(p) ==> (occurs_twice(hay, needle)
            <==> first_match_from(hay, needle, p + 1) is Some),
        first_match(hay, needle) is None ==> !occurs_twice(hay, needle),
{
    lemma_first_match_from(hay, needle, 0);
    match first_match(hay, needle) {
        None => {},
        Some(p) => {
            lemma_first_match_from(hay, needle, p + 1);
            match first_match_from(hay, needle, p + 1) {
                Some(q) => {
                    assert(p != q && occurs_at(hay, needle, p) && occurs_at(hay, needle, q));
                },
                None => {
                    assert forall|i: int, j: int|
                        i != j && #[trigger] occurs_at(hay, needle, i) && #[trigger] occurs_at(
                            hay,
                            needle,
                            j,
                        ) implies false by {
                        if i > p {
                            assert(!occurs_at(hay, needle, i));
                        } else if j > p {
                            assert(!occurs_at(hay, needle, j));
                        }
                    }
                },
            }
        },
    }
}

/// A needle that stands at one index and nowhere else is found there.
pub proof fn lemma_single_occurrence(hay: Seq<char>, needle: Seq<char>, at: int)
    requires
        occurs_at(hay, needle, at),
        forall|i: int| i != at ==> !occurs_at(hay, needle, i),
    ensures
        first_match(hay, needle) == Some(at),
        occurs(hay, needle),
        !occurs_twice(hay, needle),
{
    lemma_first_match_from(hay, needle, 0);
}

/// Whether `needle` stands in `hay` at index `i`.
pub fn matches_at(hay: &Vec<char>, needle: &Vec<char>, i: usize) -> (r: bool)
    ensures
        r == occurs_at(hay@, needle@, i as int),
{
    if needle.len() > hay.len() || i > hay.len() - needle.len() {
        return false;
    }
    let mut k: usize = 0;
    while k < needle.len()
        invariant
            k <= needle.len(),
            i + needle.len() <= hay.len(),
            hay@.subrange(i as int, i + k) == needle@.take(k as int),
        decreases needle.len() - k,
    {
        if hay[i + k] != needle[k] {
            return false;
        }
        k = k + 1;
    }
    assert(needle@.take(needle.len() as int) == needle@);
    true
}

/// The least index at or after `from` at which `needle` stands in `hay`.
pub fn find_from(hay: &Vec<char>, needle: &Vec<char>, from: usize) -> (r: Option<usize>)
    ensures
        match r {
            Some(p) => first_match_from(hay@, needle@, from as int) == Some(p as int),
            None => first_match_from(hay@, needle@, from as int) is None,
        },
{
    if needle.len() > hay.len() || from > hay.len() - needle.len() {
        return None;
    }
    let last: usize = hay.len() - needle.len();
    let mut i: usize = from;
    while i <= last
        invariant
            from <= i <= last + 1,
            last == hay.len() - needle.len(),
            needle.len() <= hay.len(),
            first_match_from(hay@, needle@, i as int) == first_match_from(
                hay@,
                needle@,
                from as int,
            ),
        decreases last + 1 - i,
    {
        if matches_at(hay, needle, i) {
            return Some(i);
        }
        if i == last {
            assert(first_match_from(hay@, needle@, i + 1) is None);
            return None;
        }
        i = i + 1;
    }
    None
}

/// Whether `needle` stands nowhere in `hay`, at one index, or at more than
/// one.
pub fn locate(hay: &Vec<char>, needle: &Vec<char>) -> (r: Occurrence)
    ensures
        match r {
            Occurrence::Absent => !occurs(hay@, needle@),
            Occurrence::Unique(p) => first_match(hay@, needle@) == Some(p as int) && occurs(
                hay@,
                needle@,
            ) && !occurs_twice(hay@, needle@),
            Occurrence::Ambiguous => occurs_twice(hay@, needle@),
        },
{
    proof {
        lemma_occurrences(hay@, needle@);
    }
    match find_from(hay, needle, 0) {
        None => Occurrence::Absent,
        Some(p) => {
            proof {
                lemma_first_match_from(hay@, needle@, 0);
            }
            if p == hay.len() {
                Occurrence::Unique(p)
            } else {
                match find_from(hay, needle, p + 1) {
                    None => Occurrence::Unique(p),
                    Some(_) => Occurrence::Ambiguous,
                }
            }
        },
    }
}

/// `hay` with the `len` characters from index `at` on replaced by `with`.
pub fn splice(hay: &Vec<char>, at: usize, len: usize, with: &Vec<char>) -> (out: Vec<char>)
    requires
        at + len <= hay.len(),
    ensures
        out@ == spliced(hay@, at as int, len as int, with@),
{
    let mut out = crate::text::copy_range(hay, 0, at);
    crate::text::extend_chars(&mut out, with);
    let tail = crate::text::copy_range(hay, at + len, hay.len());
    crate::text::extend_chars(&mut out, &tail);
    out
}

} // verus!
