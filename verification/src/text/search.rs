//! Finding one text inside another, and cutting a text at what was found.

use vstd::prelude::*;
use crate::text::chars::{is_space, is_whitespace};
use crate::text::split::{last_segment, lemma_last_segment_ends, segment_last};

verus! {

/// `needle` stands in `hay` at index `i`.
pub open spec fn occurs_at(hay: Seq<char>, needle: Seq<char>, i: int) -> bool {
    0 <= i && i + needle.len() <= hay.len() && hay.subrange(i, i + needle.len()) == needle
}

/// `needle` stands somewhere in `hay`.
pub open spec fn contains_text(hay: Seq<char>, needle: Seq<char>) -> bool {
    exists|i: int| occurs_at(hay, needle, i)
}

/// `s` begins with `prefix`.
pub open spec fn has_prefix(s: Seq<char>, prefix: Seq<char>) -> bool {
    occurs_at(s, prefix, 0)
}

/// `s` ends with `suffix`.
pub open spec fn has_suffix(s: Seq<char>, suffix: Seq<char>) -> bool {
    occurs_at(s, suffix, s.len() - suffix.len())
}

/// `i` is the first index at which `needle` stands in `hay`.
pub open spec fn is_first_occurrence(hay: Seq<char>, needle: Seq<char>, i: int) -> bool {
    occurs_at(hay, needle, i) && forall|j: int| 0 <= j < i ==> !occurs_at(hay, needle, j)
}

/// Whether `needle` stands in `hay` at index `at`.
pub fn matches_at(hay: &Vec<char>, needle: &Vec<char>, at: usize) -> (r: bool)
    ensures
        r == occurs_at(hay@, needle@, at as int),
{
    if at > hay.len() || needle.len() > hay.len() - at {
        return false;
    }
    let mut k: usize = 0;
    while k < needle.len()
        invariant
            k <= needle.len(),
            at + needle.len() <= hay.len(),
            hay@.subrange(at as int, at + k) == needle@.take(k as int),
        decreases needle.len() - k,
    {
        if hay[at + k] != needle[k] {
            assert(hay@.subrange(at as int, at + needle.len())[k as int] != needle@[k as int]);
            return false;
        }
        assert(hay@.subrange(at as int, at + k + 1) == hay@.subrange(at as int, at + k).push(
            hay@[at + k],
        ));
        assert(needle@.take(k + 1) == needle@.take(k as int).push(needle@[k as int]));
        k += 1;
    }
    assert(needle@.take(needle.len() as int) == needle@);
    true
}

/// The first index at which `needle` stands in `hay`.
pub fn find(hay: &Vec<char>, needle: &Vec<char>) -> (r: Option<usize>)
    ensures
        match r {
            Some(i) => is_first_occurrence(hay@, needle@, i as int),
            None => !contains_text(hay@, needle@),
        },
{
    let mut i: usize = 0;
    while needle.len() <= hay.len() - i
        invariant
            i <= hay.len(),
            forall|j: int| 0 <= j < i ==> !occurs_at(hay@, needle@, j),
        decreases hay.len() - i,
    {
        if matches_at(hay, needle, i) {
            return Some(i);
        }
        assert(needle.len() > 0) by {
            if needle.len() == 0 {
                assert(hay@.subrange(i as int, i as int) == needle@);
            }
        }
        i += 1;
    }
    None
}

/// Whether `needle` stands somewhere in `hay`.
pub fn contains(hay: &Vec<char>, needle: &Vec<char>) -> (r: bool)
    ensures
        r == contains_text(hay@, needle@),
{
    find(hay, needle).is_some()
}

/// Whether `s` begins with `prefix`.
pub fn starts_with(s: &Vec<char>, prefix: &Vec<char>) -> (r: bool)
    ensures
        r == has_prefix(s@, prefix@),
{
    matches_at(s, prefix, 0)
}

/// Whether `s` ends with `suffix`.
pub fn ends_with(s: &Vec<char>, suffix: &Vec<char>) -> (r: bool)
    ensures
        r == has_suffix(s@, suffix@),
{
    if suffix.len() > s.len() {
        return false;
    }
    matches_at(s, suffix, s.len() - suffix.len())
}

/// The characters of `s` from index `from` up to index `to`.
pub fn slice_chars(s: &Vec<char>, from: usize, to: usize) -> (r: Vec<char>)
    requires
        from <= to <= s.len(),
    ensures
        r@ == s@.subrange(from as int, to as int),
{
    let mut r: Vec<char> = Vec::new();
    let mut i: usize = from;
    while i < to
        invariant
            from <= i <= to,
            to <= s.len(),
            r@ == s@.subrange(from as int, i as int),
        decreases to - i,
    {
        r.push(s[i]);
        i += 1;
    }
    r
}

/// `s` with every `suffix` at its end taken off, one after another.
pub open spec fn without_suffixes(s: Seq<char>, suffix: Seq<char>) -> Seq<char>
    decreases s.len(),
{
    if suffix.len() > 0 && has_suffix(s, suffix) {
        without_suffixes(s.take(s.len() - suffix.len()), suffix)
    } else {
        s
    }
}

/// Takes every `suffix` off the end of `s`.
pub fn trim_suffixes(s: &Vec<char>, suffix: &Vec<char>) -> (r: Vec<char>)
    ensures
        r@ == without_suffixes(s@, suffix@),
{
    let mut end: usize = s.len();
    assert(s@.take(s.len() as int) == s@);
    if suffix.len() > 0 {
        while end >= suffix.len() && matches_at(s, suffix, end - suffix.len())
            invariant
                end <= s.len(),
                suffix.len() > 0,
                without_suffixes(s@, suffix@) == without_suffixes(s@.take(end as int), suffix@),
            decreases end,
        {
            proof {
                let t = s@.take(end as int);
                assert(t.subrange(end - suffix.len(), end as int) == s@.subrange(
                    end - suffix.len(),
                    end as int,
                ));
                assert(t.take(t.len() - suffix.len()) == s@.take(end - suffix.len()));
            }
            end = end - suffix.len();
        }
        proof {
            let t = s@.take(end as int);
            if end >= suffix.len() {
                assert(t.subrange(end - suffix.len(), end as int) == s@.subrange(
                    end - suffix.len(),
                    end as int,
                ));
            }
            assert(!has_suffix(t, suffix@));
        }
    }
    slice_chars(s, 0, end)
}

/// `s` without the characters `c` at its start.
pub open spec fn without_leading(s: Seq<char>, c: char) -> Seq<char>
    decreases s.len(),
{
    if s.len() > 0 && s[0] == c {
        without_leading(s.skip(1), c)
    } else {
        s
    }
}

/// Takes every `c` off the start of `s`.
pub fn trim_leading(s: &Vec<char>, c: char) -> (r: Vec<char>)
    ensures
        r@ == without_leading(s@, c),
{
    let mut start: usize = 0;
    assert(s@.skip(0) == s@);
    while start < s.len() && s[start] == c
        invariant
            start <= s.len(),
            without_leading(s@, c) == without_leading(s@.skip(start as int), c),
        decreases s.len() - start,
    {
        assert(s@.skip(start as int).skip(1) == s@.skip(start + 1));
        start += 1;
    }
    assert(s@.skip(start as int) == s@.subrange(start as int, s.len() as int));
    slice_chars(s, start, s.len())
}

/// `s` without the round brackets at its end.
pub open spec fn without_trailing_brackets(s: Seq<char>) -> Seq<char>
    decreases s.len(),
{
    if s.len() > 0 && (s.last() == ')' || s.last() == '(') {
        without_trailing_brackets(s.drop_last())
    } else {
        s
    }
}

/// Takes the round brackets off the end of `s`.
pub fn trim_trailing_brackets(s: &Vec<char>) -> (r: Vec<char>)
    ensures
        r@ == without_trailing_brackets(s@),
{
    let mut end: usize = s.len();
    assert(s@.take(end as int) == s@);
    while end > 0 && (s[end - 1] == ')' || s[end - 1] == '(')
        invariant
            end <= s.len(),
            without_trailing_brackets(s@) == without_trailing_brackets(s@.take(end as int)),
        decreases end,
    {
        assert(s@.take(end as int).drop_last() == s@.take(end - 1));
        end -= 1;
    }
    slice_chars(s, 0, end)
}

/// `s` without the white space at its end.
pub open spec fn without_trailing_space(s: Seq<char>) -> Seq<char>
    decreases s.len(),
{
    if s.len() > 0 && is_space(s.last()) {
        without_trailing_space(s.drop_last())
    } else {
        s
    }
}

/// `s` without the white space at its start.
pub open spec fn without_leading_space(s: Seq<char>) -> Seq<char>
    decreases s.len(),
{
    if s.len() > 0 && is_space(s[0]) {
        without_leading_space(s.skip(1))
    } else {
        s
    }
}

/// `s` without the white space at either end.
pub open spec fn trimmed(s: Seq<char>) -> Seq<char> {
    without_trailing_space(without_leading_space(s))
}

/// Takes the white space off both ends of `s`.
pub fn trim(s: &Vec<char>) -> (r: Vec<char>)
    ensures
        r@ == trimmed(s@),
{
    let mut start: usize = 0;
    assert(s@.skip(0) == s@);
    while start < s.len() && is_whitespace(s[start])
        invariant
            start <= s.len(),
            without_leading_space(s@) == without_leading_space(s@.skip(start as int)),
        decreases s.len() - start,
    {
        assert(s@.skip(start as int).skip(1) == s@.skip(start + 1));
        start += 1;
    }
    let ghost mid = s@.skip(start as int);
    assert(without_leading_space(s@) == mid);
    let mut end: usize = s.len();
    assert(mid.take(end - start) == mid);
    while end > start && is_whitespace(s[end - 1])
        invariant
            start <= end <= s.len(),
            mid == s@.skip(start as int),
            without_trailing_space(mid) == without_trailing_space(mid.take(end - start)),
        decreases end,
    {
        assert(mid.take(end - start).drop_last() == mid.take(end - start - 1));
        end -= 1;
    }
    assert(mid.take(end - start) == s@.subrange(start as int, end as int));
    slice_chars(s, start, end)
}

/// The first index at which `needle` stands in `hay`, where it stands in it.
pub open spec fn first_index_of(hay: Seq<char>, needle: Seq<char>) -> int {
    choose|i: int| is_first_occurrence(hay, needle, i)
}

/// There is one first occurrence at most.
pub proof fn lemma_first_occurrence_is_unique(hay: Seq<char>, needle: Seq<char>, i: int)
    requires
        is_first_occurrence(hay, needle, i),
    ensures
        contains_text(hay, needle),
        first_index_of(hay, needle) == i,
{
    let j = first_index_of(hay, needle);
    assert(is_first_occurrence(hay, needle, j));
    if j < i {
        assert(!occurs_at(hay, needle, j));
    }
    if i < j {
        assert(!occurs_at(hay, needle, i));
    }
}

/// What follows the first occurrence of `needle` in `hay`.
pub open spec fn text_after(hay: Seq<char>, needle: Seq<char>) -> Option<Seq<char>> {
    if contains_text(hay, needle) {
        Some(hay.skip(first_index_of(hay, needle) + needle.len()))
    } else {
        None
    }
}

/// What stands before the first occurrence of `needle` in `hay`: all of `hay`
/// where `needle` does not occur.
pub open spec fn text_before(hay: Seq<char>, needle: Seq<char>) -> Seq<char> {
    if contains_text(hay, needle) {
        hay.take(first_index_of(hay, needle))
    } else {
        hay
    }
}

/// Cuts off `hay` behind the first occurrence of `needle`.
pub fn split_after(hay: &Vec<char>, needle: &Vec<char>) -> (r: Option<Vec<char>>)
    ensures
        match r {
            Some(rest) => text_after(hay@, needle@) == Some(rest@),
            None => text_after(hay@, needle@).is_none(),
        },
{
    match find(hay, needle) {
        Some(i) => {
            proof {
                lemma_first_occurrence_is_unique(hay@, needle@, i as int);
                assert(hay@.skip(i + needle.len()) == hay@.subrange(
                    i + needle.len(),
                    hay.len() as int,
                ));
            }
            Some(slice_chars(hay, i + needle.len(), hay.len()))
        },
        None => None,
    }
}

/// Cuts off `hay` before the first occurrence of `needle`.
pub fn split_before(hay: &Vec<char>, needle: &Vec<char>) -> (r: Vec<char>)
    ensures
        r@ == text_before(hay@, needle@),
{
    match find(hay, needle) {
        Some(i) => {
            proof {
                lemma_first_occurrence_is_unique(hay@, needle@, i as int);
            }
            slice_chars(hay, 0, i)
        },
        None => {
            assert(hay@.subrange(0, hay.len() as int) == hay@);
            slice_chars(hay, 0, hay.len())
        },
    }
}

/// What stands before the last `sep` in `s`: all of `s` where it holds no `sep`.
pub open spec fn before_last(s: Seq<char>, sep: char) -> Seq<char> {
    let tail = last_segment(s, sep);
    if tail.len() < s.len() {
        s.take(s.len() - tail.len() - 1)
    } else {
        s
    }
}

/// Cuts off `s` before its last `sep`.
pub fn split_before_last(s: &Vec<char>, sep: char) -> (r: Vec<char>)
    ensures
        r@ == before_last(s@, sep),
{
    let tail = segment_last(s, sep);
    proof {
        lemma_last_segment_ends(s@, sep);
    }
    if tail.len() < s.len() {
        slice_chars(s, 0, s.len() - tail.len() - 1)
    } else {
        assert(s@.subrange(0, s.len() as int) == s@);
        slice_chars(s, 0, s.len())
    }
}

} // verus!
