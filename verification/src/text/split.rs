//! Splitting text into lines, fields and segments.

use vstd::prelude::*;
use crate::text::chars::{copy_chars, is_space, is_whitespace, views};

verus! {

/// The segments of `s` between occurrences of `sep`. There is always at
/// least one segment; a separator at either end gives an empty segment there.
pub open spec fn split_on(s: Seq<char>, sep: char) -> Seq<Seq<char>>
    decreases s.len(),
{
    if s.len() == 0 {
        seq![Seq::<char>::empty()]
    } else {
        let before = split_on(s.drop_last(), sep);
        if s.last() == sep {
            before.push(Seq::<char>::empty())
        } else {
            before.drop_last().push(before.last().push(s.last()))
        }
    }
}

/// A text has one segment at least.
pub proof fn lemma_split_on_nonempty(s: Seq<char>, sep: char)
    ensures
        split_on(s, sep).len() >= 1,
    decreases s.len(),
{
    if s.len() > 0 {
        lemma_split_on_nonempty(s.drop_last(), sep);
    }
}

/// Splits `s` at every `sep`.
pub fn split_chars(s: &Vec<char>, sep: char) -> (r: Vec<Vec<char>>)
    ensures
        views(r@) == split_on(s@, sep),
{
    let mut done: Vec<Vec<char>> = Vec::new();
    let mut cur: Vec<char> = Vec::new();
    let mut i: usize = 0;
    while i < s.len()
        invariant
            i <= s.len(),
            views(done@).push(cur@) == split_on(s@.take(i as int), sep),
        decreases s.len() - i,
    {
        let ghost before = split_on(s@.take(i as int), sep);
        proof {
            assert(s@.take(i + 1).drop_last() == s@.take(i as int));
            assert(before.last() == cur@);
            assert(before.drop_last() == views(done@));
        }
        if s[i] == sep {
            done.push(cur);
            cur = Vec::new();
            assert(views(done@) == before);
        } else {
            cur.push(s[i]);
        }
        i += 1;
    }
    assert(s@.take(s.len() as int) == s@);
    done.push(cur);
    assert(views(done@) == split_on(s@, sep));
    done
}

/// The scan behind `words`: the fields already closed, and the field that
/// the last character belongs to (empty between fields).
pub open spec fn words_scan(s: Seq<char>) -> (Seq<Seq<char>>, Seq<char>)
    decreases s.len(),
{
    if s.len() == 0 {
        (Seq::<Seq<char>>::empty(), Seq::<char>::empty())
    } else {
        let (done, cur) = words_scan(s.drop_last());
        if is_space(s.last()) {
            if cur.len() > 0 {
                (done.push(cur), Seq::<char>::empty())
            } else {
                (done, cur)
            }
        } else {
            (done, cur.push(s.last()))
        }
    }
}

/// The maximal runs of characters of `s` that hold no white space, in order.
pub open spec fn words(s: Seq<char>) -> Seq<Seq<char>> {
    let (done, cur) = words_scan(s);
    if cur.len() > 0 {
        done.push(cur)
    } else {
        done
    }
}

/// Splits a line into its white-space separated fields.
pub fn split_words(s: &Vec<char>) -> (r: Vec<Vec<char>>)
    ensures
        views(r@) == words(s@),
{
    let mut done: Vec<Vec<char>> = Vec::new();
    let mut cur: Vec<char> = Vec::new();
    let mut i: usize = 0;
    while i < s.len()
        invariant
            i <= s.len(),
            (views(done@), cur@) == words_scan(s@.take(i as int)),
        decreases s.len() - i,
    {
        proof {
            assert(s@.take(i + 1).drop_last() == s@.take(i as int));
        }
        let ghost before = views(done@);
        if is_whitespace(s[i]) {
            if cur.len() > 0 {
                done.push(cur);
                cur = Vec::new();
                assert(views(done@) == before.push(words_scan(s@.take(i as int)).1));
            }
        } else {
            cur.push(s[i]);
        }
        i += 1;
    }
    assert(s@.take(s.len() as int) == s@);
    if cur.len() > 0 {
        let ghost before = views(done@);
        done.push(cur);
        assert(views(done@) == before.push(words_scan(s@).1));
    }
    done
}

/// `s` without one carriage return at its end, if it has one.
pub open spec fn strip_cr(s: Seq<char>) -> Seq<char> {
    if s.len() > 0 && s.last() == '\r' {
        s.drop_last()
    } else {
        s
    }
}

/// The lines of a text. A line ends at a line feed, which may follow a
/// carriage return; neither belongs to the line. What follows the last line
/// feed is a line of its own unless it is empty.
pub open spec fn lines(s: Seq<char>) -> Seq<Seq<char>> {
    let parts = split_on(s, '\n');
    let ended = Seq::new((parts.len() - 1) as nat, |i: int| strip_cr(parts[i]));
    if parts.last().len() > 0 {
        ended.push(parts.last())
    } else {
        ended
    }
}

/// Splits a text into its lines.
pub fn split_lines(s: &Vec<char>) -> (r: Vec<Vec<char>>)
    ensures
        views(r@) == lines(s@),
{
    let mut parts = split_chars(s, '\n');
    proof {
        lemma_split_on_nonempty(s@, '\n');
    }
    let ghost all = split_on(s@, '\n');
    let last = parts.pop().unwrap();
    assert(last@ == all.last());
    assert(views(parts@) == all.drop_last());
    let mut out: Vec<Vec<char>> = Vec::new();
    let mut i: usize = 0;
    while i < parts.len()
        invariant
            i <= parts.len(),
            views(parts@) == all.drop_last(),
            all.len() == parts.len() + 1,
            views(out@) == Seq::new(i as nat, |k: int| strip_cr(all[k])),
        decreases parts.len() - i,
    {
        let part = &parts[i];
        assert(part@ == all[i as int]) by {
            assert(views(parts@)[i as int] == all.drop_last()[i as int]);
        }
        let n = part.len();
        let mut line: Vec<char> = Vec::new();
        let keep: usize = if n > 0 && part[n - 1] == '\r' {
            (n - 1) as usize
        } else {
            n
        };
        let mut k: usize = 0;
        while k < keep
            invariant
                k <= keep,
                keep <= part.len(),
                line@ == part@.take(k as int),
            decreases keep - k,
        {
            line.push(part[k]);
            k += 1;
        }
        assert(line@ == strip_cr(part@));
        let ghost before = views(out@);
        out.push(line);
        assert(views(out@) == before.push(strip_cr(all[i as int])));
        i += 1;
        assert(views(out@) == Seq::new(i as nat, |k: int| strip_cr(all[k])));
    }
    if last.len() > 0 {
        let ghost before = views(out@);
        out.push(last);
        assert(views(out@) == before.push(all.last()));
    }
    out
}

/// The segments joined into one text with `sep` between neighbours.
pub open spec fn joined(parts: Seq<Seq<char>>, sep: Seq<char>) -> Seq<char>
    decreases parts.len(),
{
    if parts.len() == 0 {
        Seq::<char>::empty()
    } else if parts.len() == 1 {
        parts[0]
    } else {
        joined(parts.drop_last(), sep) + sep + parts.last()
    }
}

/// Appends the characters of `tail` to `out`.
pub fn extend_chars(out: &mut Vec<char>, tail: &Vec<char>)
    ensures
        final(out)@ == old(out)@ + tail@,
{
    let mut i: usize = 0;
    while i < tail.len()
        invariant
            i <= tail.len(),
            out@ == old(out)@ + tail@.take(i as int),
        decreases tail.len() - i,
    {
        out.push(tail[i]);
        i += 1;
    }
    assert(tail@.take(tail.len() as int) == tail@);
}

/// Joins the segments from index `from` on with `sep` between neighbours.
pub fn join_from(parts: &Vec<Vec<char>>, from: usize, sep: &Vec<char>) -> (r: Vec<char>)
    requires
        from <= parts.len(),
    ensures
        r@ == joined(views(parts@).skip(from as int), sep@),
{
    let mut out: Vec<char> = Vec::new();
    let mut i: usize = from;
    let ghost rest = views(parts@).skip(from as int);
    while i < parts.len()
        invariant
            from <= i <= parts.len(),
            rest == views(parts@).skip(from as int),
            out@ == joined(rest.take(i - from), sep@),
        decreases parts.len() - i,
    {
        proof {
            assert(rest.take(i - from + 1).drop_last() == rest.take(i - from));
            assert(rest.take(i - from + 1).last() == parts@[i as int]@);
        }
        if i > from {
            extend_chars(&mut out, sep);
        }
        extend_chars(&mut out, &parts[i]);
        i += 1;
    }
    assert(rest.take(parts.len() - from) == rest);
    out
}

/// The segment of `s` with index `n` among those between occurrences of `sep`.
pub open spec fn nth_segment(s: Seq<char>, sep: char, n: int) -> Option<Seq<char>> {
    if 0 <= n < split_on(s, sep).len() {
        Some(split_on(s, sep)[n])
    } else {
        None
    }
}

/// What follows the last `sep` in `s`: all of `s` where it holds no `sep`.
pub open spec fn last_segment(s: Seq<char>, sep: char) -> Seq<char> {
    split_on(s, sep).last()
}

/// The segment with index `n`, if there are that many.
pub fn segment_at(s: &Vec<char>, sep: char, n: usize) -> (r: Option<Vec<char>>)
    ensures
        match r {
            Some(v) => nth_segment(s@, sep, n as int) == Some(v@),
            None => nth_segment(s@, sep, n as int).is_none(),
        },
{
    let segs = split_chars(s, sep);
    if n < segs.len() {
        assert(views(segs@)[n as int] == segs[n as int]@);
        Some(copy_chars(&segs[n]))
    } else {
        None
    }
}

/// What follows the last `sep` in `s`.
pub fn segment_last(s: &Vec<char>, sep: char) -> (r: Vec<char>)
    ensures
        r@ == last_segment(s@, sep),
{
    let segs = split_chars(s, sep);
    proof {
        lemma_split_on_nonempty(s@, sep);
    }
    assert(views(segs@)[segs.len() - 1] == segs[segs.len() - 1]@);
    copy_chars(&segs[segs.len() - 1])
}

/// The last segment is the end of the text, and where it is not the whole
/// text a separator stands just before it.
pub proof fn lemma_last_segment_ends(s: Seq<char>, sep: char)
    ensures
        last_segment(s, sep).len() <= s.len(),
        s.skip(s.len() - last_segment(s, sep).len()) == last_segment(s, sep),
        last_segment(s, sep).len() < s.len() ==> s[s.len() - last_segment(s, sep).len() - 1]
            == sep,
    decreases s.len(),
{
    let last = last_segment(s, sep);
    if s.len() == 0 {
        assert(s.skip(0) =~= last);
    } else {
        let front = s.drop_last();
        lemma_last_segment_ends(front, sep);
        lemma_split_on_nonempty(front, sep);
        let before = last_segment(front, sep);
        if s.last() == sep {
            assert(s.skip(s.len() as int) =~= last);
        } else {
            assert(last == before.push(s.last()));
            assert(s.skip(s.len() - last.len()) =~= front.skip(front.len() - before.len()).push(
                s.last(),
            ));
            if last.len() < s.len() {
                assert(s[s.len() - last.len() - 1] == front[front.len() - before.len() - 1]);
            }
        }
    }
}

/// The lines of a listing behind its `n` header lines.
pub open spec fn body_lines(ls: Seq<Seq<char>>, n: nat) -> Seq<Seq<char>> {
    if ls.len() <= n {
        Seq::<Seq<char>>::empty()
    } else {
        ls.skip(n as int)
    }
}

/// No segment holds the separator, and the segments with the separator
/// between them are the text again.
pub proof fn lemma_split_on_is_exact(s: Seq<char>, sep: char)
    ensures
        forall|i: int|
            0 <= i < split_on(s, sep).len() ==> !(#[trigger] split_on(s, sep)[i]).contains(sep),
        joined(split_on(s, sep), seq![sep]) == s,
    decreases s.len(),
{
    let parts = split_on(s, sep);
    if s.len() == 0 {
        assert(joined(parts, seq![sep]) =~= s);
    } else {
        let front = s.drop_last();
        let before = split_on(front, sep);
        lemma_split_on_is_exact(front, sep);
        lemma_split_on_nonempty(front, sep);
        if s.last() == sep {
            assert(parts.drop_last() == before);
            assert(joined(parts, seq![sep]) =~= front.push(sep));
            assert(front.push(sep) == s);
            assert forall|i: int| 0 <= i < parts.len() implies !(#[trigger] parts[i]).contains(
                sep,
            ) by {
                if i < before.len() {
                    assert(parts[i] == before[i]);
                }
            }
        } else {
            let grown = before.last().push(s.last());
            assert(parts.drop_last() == before.drop_last());
            assert forall|i: int| 0 <= i < parts.len() implies !(#[trigger] parts[i]).contains(
                sep,
            ) by {
                if i < before.len() - 1 {
                    assert(parts[i] == before[i]);
                } else {
                    assert(parts[i] == grown);
                    if grown.contains(sep) {
                        let k = choose|k: int| 0 <= k < grown.len() && grown[k] == sep;
                        assert(before.last()[k] == sep);
                        assert(before[before.len() - 1].contains(sep));
                    }
                }
            }
            if before.len() == 1 {
                assert(joined(before, seq![sep]) == before[0]);
                assert(joined(parts, seq![sep]) =~= s);
            } else {
                assert(joined(before, seq![sep]) == joined(before.drop_last(), seq![sep]) + seq![
                    sep,
                ] + before.last());
                assert(joined(parts, seq![sep]) == joined(before.drop_last(), seq![sep]) + seq![
                    sep,
                ] + grown);
                assert(joined(parts, seq![sep]) =~= front.push(s.last()));
                assert(front.push(s.last()) == s);
            }
        }
    }
}

/// The fields of a line and the field in progress hold no white space, and
/// the closed fields are not empty.
pub proof fn lemma_words_scan_is_clean(s: Seq<char>)
    ensures
        forall|i: int|
            0 <= i < words_scan(s).0.len() ==> (#[trigger] words_scan(s).0[i]).len() > 0 && forall|
                k: int,
            |
                0 <= k < words_scan(s).0[i].len() ==> !is_space(#[trigger] words_scan(s).0[i][k]),
        forall|k: int| 0 <= k < words_scan(s).1.len() ==> !is_space(#[trigger] words_scan(s).1[k]),
    decreases s.len(),
{
    if s.len() > 0 {
        lemma_words_scan_is_clean(s.drop_last());
        let (done, cur) = words_scan(s.drop_last());
        let (done2, cur2) = words_scan(s);
        assert forall|i: int| 0 <= i < done2.len() implies (#[trigger] done2[i]).len() > 0
            && forall|k: int| 0 <= k < done2[i].len() ==> !is_space(#[trigger] done2[i][k]) by {
            if i < done.len() {
                assert(done2[i] == done[i]);
            }
        }
        assert forall|k: int| 0 <= k < cur2.len() implies !is_space(#[trigger] cur2[k]) by {
            if k < cur.len() {
                assert(cur2[k] == cur[k]);
            }
        }
    }
}

/// One more segment behind the others, with nothing between them, is
/// appended to what the others give.
pub proof fn lemma_joined_push(parts: Seq<Seq<char>>, last: Seq<char>)
    ensures
        joined(parts.push(last), Seq::<char>::empty()) == joined(parts, Seq::<char>::empty())
            + last,
{
    let all = parts.push(last);
    assert(all.drop_last() == parts);
    if parts.len() == 0 {
        assert(joined(all, Seq::<char>::empty()) =~= joined(parts, Seq::<char>::empty()) + last);
    } else {
        assert(joined(all, Seq::<char>::empty()) =~= joined(parts, Seq::<char>::empty()) + last);
    }
}

/// The fields of a line hold what the line holds beside white space: put
/// together, the closed fields and the field in progress are the characters
/// of the line that are no white space, in order.
pub proof fn lemma_words_scan_keeps_text(s: Seq<char>)
    ensures
        joined(words_scan(s).0, Seq::<char>::empty()) + words_scan(s).1 == s.filter(
            |c: char| !is_space(c),
        ),
    decreases s.len(),
{
    reveal(Seq::filter);
    if s.len() > 0 {
        lemma_words_scan_keeps_text(s.drop_last());
        let (done, cur) = words_scan(s.drop_last());
        let kept = s.drop_last().filter(|c: char| !is_space(c));
        if is_space(s.last()) {
            if cur.len() > 0 {
                lemma_joined_push(done, cur);
                assert(joined(done.push(cur), Seq::<char>::empty()) + Seq::<char>::empty()
                    =~= kept);
            }
        } else {
            assert(joined(done, Seq::<char>::empty()) + cur.push(s.last()) =~= kept.push(
                s.last(),
            ));
        }
    } else {
        assert(joined(words_scan(s).0, Seq::<char>::empty()) + words_scan(s).1 =~= s);
    }
}

/// The fields of a line, put together, are the characters of the line that
/// are no white space, in order.
pub proof fn lemma_words_keep_text(s: Seq<char>)
    ensures
        joined(words(s), Seq::<char>::empty()) == s.filter(|c: char| !is_space(c)),
{
    lemma_words_scan_keeps_text(s);
    let (done, cur) = words_scan(s);
    if cur.len() > 0 {
        lemma_joined_push(done, cur);
    } else {
        assert(joined(done, Seq::<char>::empty()) + cur =~= joined(done, Seq::<char>::empty()));
    }
}

/// Every field of a line has at least one character and no white space.
pub proof fn lemma_words_are_fields(s: Seq<char>, i: int)
    requires
        0 <= i < words(s).len(),
    ensures
        words(s)[i].len() > 0,
        forall|k: int| 0 <= k < words(s)[i].len() ==> !is_space(#[trigger] words(s)[i][k]),
{
    lemma_words_scan_is_clean(s);
    let (done, cur) = words_scan(s);
    if i < done.len() {
        assert(words(s)[i] == done[i]);
    }
}

/// No line of a text holds a line feed.
pub proof fn lemma_lines_hold_no_line_feed(s: Seq<char>, i: int)
    requires
        0 <= i < lines(s).len(),
    ensures
        !lines(s)[i].contains('\n'),
{
    let parts = split_on(s, '\n');
    lemma_split_on_is_exact(s, '\n');
    lemma_split_on_nonempty(s, '\n');
    let line = lines(s)[i];
    if i < parts.len() - 1 {
        assert(line == strip_cr(parts[i]));
        if line.contains('\n') {
            let k = choose|k: int| 0 <= k < line.len() && line[k] == '\n';
            assert(parts[i][k] == '\n');
            assert(parts[i].contains('\n'));
        }
    } else {
        assert(line == parts[parts.len() - 1]);
    }
}

} // verus!
