//! Lines of a text: counting line breaks, splitting into lines and joining
//! lines again.
//!
//! A line ends at a line feed, or at the end of the text. The line feed is
//! not part of the line, nor is a carriage return that stands directly before
//! it. A text that ends in a line feed has no empty last line.

use vstd::prelude::*;
use crate::text::views;

verus! {

/// How often `c` occurs in `s`.
pub open spec fn count_of(s: Seq<char>, c: char) -> nat
    decreases s.len(),
{
    if s.len() == 0 {
        0
    } else {
        count_of(s.drop_last(), c) + if s.last() == c {
            1nat
        } else {
            0nat
        }
    }
}

/// The number of line feeds in `s`.
pub open spec fn newlines(s: Seq<char>) -> nat {
    count_of(s, '\n')
}

/// The first index at or after `from` that holds a line feed, or the length
/// of `s` if there is none.
pub open spec fn line_end(s: Seq<char>, from: int) -> int
    decreases s.len() - from,
{
    if 0 <= from < s.len() && s[from] != '\n' {
        line_end(s, from + 1)
    } else {
        from
    }
}

/// The line that is stored in `s[from..end]`, where `end` is the index of
/// its line feed or the length of `s`.
pub open spec fn line_text(s: Seq<char>, from: int, end: int) -> Seq<char> {
    let raw = s.subrange(from, end);
    if end < s.len() && raw.len() > 0 && raw.last() == '\r' {
        raw.drop_last()
    } else {
        raw
    }
}

/// The lines of `s` that start at or after `from`.
pub open spec fn lines_from(s: Seq<char>, from: int) -> Seq<Seq<char>>
    decreases s.len() - from + 1,
{
    if from < 0 || from >= s.len() {
        Seq::empty()
    } else {
        let end = line_end(s, from);
        if from <= end <= s.len() {
            seq![line_text(s, from, end)] + lines_from(s, end + 1)
        } else {
            Seq::empty()
        }
    }
}

/// The lines of `s`.
pub open spec fn lines(s: Seq<char>) -> Seq<Seq<char>> {
    lines_from(s, 0)
}

/// The parts in order, with `sep` between each two neighbours.
pub open spec fn joined(parts: Seq<Seq<char>>, sep: Seq<char>) -> Seq<char>
    decreases parts.len(),
{
    if parts.len() == 0 {
        Seq::empty()
    } else if parts.len() == 1 {
        parts[0]
    } else {
        joined(parts.drop_last(), sep) + sep + parts.last()
    }
}

/// The at most `count` items of `items` from index `start` on.
pub open spec fn window<T>(items: Seq<T>, start: int, count: int) -> Seq<T> {
    let lo = if start < items.len() {
        start
    } else {
        items.len() as int
    };
    let hi = if start + count < items.len() {
        start + count
    } else {
        items.len() as int
    };
    if 0 <= lo <= hi {
        items.subrange(lo, hi)
    } else {
        Seq::empty()
    }
}

/// How often `c` occurs among the first `upto` characters of `s`.
pub fn count_char(s: &Vec<char>, upto: usize, c: char) -> (n: usize)
    requires
        upto <= s.len(),
    ensures
        n == count_of(s@.take(upto as int), c),
        n <= upto,
{
    let mut n: usize = 0;
    let mut i: usize = 0;
    while i < upto
        invariant
            i <= upto <= s.len(),
            n <= i,
            n == count_of(s@.take(i as int), c),
        decreases upto - i,
    {
        assert(s@.take(i + 1).drop_last() == s@.take(i as int));
        if s[i] == c {
            n = n + 1;
        }
        i = i + 1;
    }
    n
}

/// The lines of `s`.
pub fn split_lines(s: &Vec<char>) -> (out: Vec<Vec<char>>)
    ensures
        views(out@) == lines(s@),
{
    let mut out: Vec<Vec<char>> = Vec::new();
    let mut from: usize = 0;
    while from < s.len()
        invariant
            from <= s.len(),
            views(out@) + lines_from(s@, from as int) == lines(s@),
        decreases s.len() - from,
    {
        let mut end: usize = from;
        while end < s.len() && s[end] != '\n'
            invariant
                from <= end <= s.len(),
                line_end(s@, end as int) == line_end(s@, from as int),
            decreases s.len() - end,
        {
            end = end + 1;
        }
        let stop: usize = if end < s.len() && end > from && s[end - 1] == '\r' {
            end - 1
        } else {
            end
        };
        let line = crate::text::copy_range(s, from, stop);
        assert(line@ == line_text(s@, from as int, end as int));
        out.push(line);
        if end == s.len() {
            assert(lines_from(s@, end + 1) == Seq::<Seq<char>>::empty());
            return out;
        }
        from = end + 1;
    }
    out
}

/// The parts `parts[lo..hi]` in order, with `sep` between each two
/// neighbours.
pub fn join_range(parts: &Vec<Vec<char>>, lo: usize, hi: usize, sep: &Vec<char>) -> (out: Vec<char>)
    requires
        lo <= hi <= parts.len(),
    ensures
        out@ == joined(views(parts@).subrange(lo as int, hi as int), sep@),
{
    let mut out: Vec<char> = Vec::new();
    let mut i: usize = lo;
    while i < hi
        invariant
            lo <= i <= hi <= parts.len(),
            out@ == joined(views(parts@).subrange(lo as int, i as int), sep@),
        decreases hi - i,
    {
        let ghost sofar = views(parts@).subrange(lo as int, i as int);
        let ghost next = views(parts@).subrange(lo as int, i + 1);
        assert(next.drop_last() == sofar);
        if i > lo {
            crate::text::extend_chars(&mut out, sep);
        }
        crate::text::extend_chars(&mut out, &parts[i]);
        i = i + 1;
    }
    out
}

} // verus!
