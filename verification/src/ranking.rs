//! Stable ranking: putting records in order without disturbing the order of
//! records that rank alike.

use vstd::prelude::*;

verus! {

/// The first `n` items of `s`, or all of `s` if it has fewer.
pub open spec fn first_n<A>(s: Seq<A>, n: nat) -> Seq<A> {
    if s.len() <= n {
        s
    } else {
        s.take(n as int)
    }
}

/// A record with a rank. `may_precede` is a total preorder on what the
/// records say; `precedes` decides it for two records.
pub trait Ranked: View + Sized {
    /// `a` may stand before `b`: it ranks before `b` or like `b`.
    spec fn may_precede(a: Self::V, b: Self::V) -> bool;

    /// Of two records one may stand before the other.
    proof fn lemma_total(a: Self::V, b: Self::V)
        ensures
            Self::may_precede(a, b) || Self::may_precede(b, a),
    ;

    /// What may stand before a record may stand before what that record may
    /// stand before.
    proof fn lemma_transitive(a: Self::V, b: Self::V, c: Self::V)
        requires
            Self::may_precede(a, b),
            Self::may_precede(b, c),
        ensures
            Self::may_precede(a, c),
    ;

    /// Whether this record may stand before `other`.
    fn precedes(&self, other: &Self) -> (r: bool)
        ensures
            r == Self::may_precede(self@, other@),
    ;
}

/// What a list of ranked records says.
pub open spec fn ranked_views<T: Ranked>(s: Seq<T>) -> Seq<T::V> {
    Seq::new(s.len(), |i: int| s[i]@)
}

/// `x` put into the ranked list `sorted`: behind every record that may
/// precede it, and so behind the records that rank like it.
pub open spec fn placed<T: Ranked>(sorted: Seq<T::V>, x: T::V) -> Seq<T::V>
    decreases sorted.len(),
{
    if sorted.len() == 0 {
        seq![x]
    } else if T::may_precede(sorted.last(), x) {
        sorted.push(x)
    } else {
        placed::<T>(sorted.drop_last(), x).push(sorted.last())
    }
}

/// The records of `s` in rank order; records that rank alike keep the order
/// they have in `s`.
pub open spec fn ranked<T: Ranked>(s: Seq<T::V>) -> Seq<T::V>
    decreases s.len(),
{
    if s.len() == 0 {
        Seq::<T::V>::empty()
    } else {
        placed::<T>(ranked::<T>(s.drop_last()), s.last())
    }
}

/// Where `placed` puts `x`: at the index `at` behind which no record may
/// precede `x`, while the record just before `at` may.
pub proof fn lemma_placed_at<T: Ranked>(sorted: Seq<T::V>, x: T::V, at: int)
    requires
        0 <= at <= sorted.len(),
        at > 0 ==> T::may_precede(sorted[at - 1], x),
        forall|k: int| at <= k < sorted.len() ==> !T::may_precede(#[trigger] sorted[k], x),
    ensures
        placed::<T>(sorted, x) == sorted.take(at).push(x) + sorted.skip(at),
    decreases sorted.len(),
{
    if sorted.len() == 0 {
        assert(sorted.take(at).push(x) + sorted.skip(at) == seq![x]);
    } else if at == sorted.len() {
        assert(sorted.take(at).push(x) + sorted.skip(at) == sorted.push(x));
    } else {
        assert(!T::may_precede(sorted[sorted.len() - 1], x));
        lemma_placed_at::<T>(sorted.drop_last(), x, at);
        assert(sorted.drop_last().take(at) == sorted.take(at));
        assert((sorted.drop_last().take(at).push(x) + sorted.drop_last().skip(at)).push(
            sorted.last(),
        ) == sorted.take(at).push(x) + sorted.skip(at));
    }
}

/// Puts the records in rank order, keeping the order of records that rank alike.
pub fn stable_sort<T: Ranked>(items: Vec<T>) -> (r: Vec<T>)
    ensures
        ranked_views(r@) == ranked::<T>(ranked_views(items@)),
{
    let mut out: Vec<T> = Vec::new();
    let ghost all = ranked_views(items@);
    let ghost mut n: int = 0;
    for x in it: items
        invariant
            n == it.index(),
            ranked_views(it.seq()) == all,
            ranked_views(out@) == ranked::<T>(all.take(n)),
    {
        let mut at: usize = out.len();
        while at > 0 && !out[at - 1].precedes(&x)
            invariant
                at <= out.len(),
                forall|k: int|
                    at <= k < out.len() ==> !T::may_precede(
                        #[trigger] ranked_views(out@)[k],
                        x@,
                    ),
            decreases at,
        {
            at -= 1;
        }
        proof {
            lemma_placed_at::<T>(ranked_views(out@), x@, at as int);
            assert(all.take(n + 1).drop_last() == all.take(n));
            assert(all.take(n + 1).last() == x@);
        }
        let ghost before = ranked_views(out@);
        out.insert(at, x);
        proof {
            assert(ranked_views(out@) == before.take(at as int).push(x@) + before.skip(at as int));
            n = n + 1;
        }
    }
    assert(all.take(n) == all);
    out
}

/// Every record of `s` may precede the records behind it.
pub open spec fn in_rank_order<T: Ranked>(s: Seq<T::V>) -> bool {
    forall|i: int, j: int| 0 <= i < j < s.len() ==> T::may_precede(s[i], s[j])
}

/// Placing a record keeps all records and adds the one placed.
pub proof fn lemma_placed_permutes<T: Ranked>(sorted: Seq<T::V>, x: T::V)
    ensures
        placed::<T>(sorted, x).to_multiset() == sorted.to_multiset().insert(x),
        placed::<T>(sorted, x).len() == sorted.len() + 1,
    decreases sorted.len(),
{
    broadcast use vstd::seq_lib::to_multiset_build;

    if sorted.len() == 0 {
        assert(seq![x] == sorted.push(x));
        assert(placed::<T>(sorted, x).to_multiset() =~= sorted.to_multiset().insert(x));
    } else if T::may_precede(sorted.last(), x) {
        assert(placed::<T>(sorted, x).to_multiset() =~= sorted.to_multiset().insert(x));
    } else {
        let front = sorted.drop_last();
        lemma_placed_permutes::<T>(front, x);
        assert(sorted == front.push(sorted.last()));
        assert(placed::<T>(sorted, x).to_multiset() =~= sorted.to_multiset().insert(x));
    }
}

/// Ranking keeps every record, each as often as it occurs, and adds none.
pub proof fn lemma_ranked_permutes<T: Ranked>(s: Seq<T::V>)
    ensures
        ranked::<T>(s).to_multiset() == s.to_multiset(),
        ranked::<T>(s).len() == s.len(),
    decreases s.len(),
{
    broadcast use vstd::seq_lib::to_multiset_build;

    if s.len() > 0 {
        lemma_ranked_permutes::<T>(s.drop_last());
        lemma_placed_permutes::<T>(ranked::<T>(s.drop_last()), s.last());
        assert(s == s.drop_last().push(s.last()));
        assert(ranked::<T>(s).to_multiset() =~= s.to_multiset());
    } else {
        assert(ranked::<T>(s) == s);
    }
}

/// A record is in the ranked list exactly if it is in the list.
pub proof fn lemma_ranked_contains<T: Ranked>(s: Seq<T::V>, x: T::V)
    ensures
        ranked::<T>(s).contains(x) == s.contains(x),
{
    lemma_ranked_permutes::<T>(s);
    s.to_multiset_ensures();
    ranked::<T>(s).to_multiset_ensures();
    assert(s.contains(x) <==> s.to_multiset().count(x) > 0);
    assert(ranked::<T>(s).contains(x) <==> ranked::<T>(s).to_multiset().count(x) > 0);
}

/// Placing a record into a list in rank order gives a list in rank order.
pub proof fn lemma_placed_in_rank_order<T: Ranked>(sorted: Seq<T::V>, x: T::V)
    requires
        in_rank_order::<T>(sorted),
    ensures
        in_rank_order::<T>(placed::<T>(sorted, x)),
    decreases sorted.len(),
{
    let r = placed::<T>(sorted, x);
    if sorted.len() == 0 {
    } else if T::may_precede(sorted.last(), x) {
        assert forall|i: int, j: int| 0 <= i < j < r.len() implies T::may_precede(r[i], r[j]) by {
            if j == sorted.len() && i < sorted.len() - 1 {
                T::lemma_transitive(sorted[i], sorted.last(), x);
            }
        }
    } else {
        let front = sorted.drop_last();
        let inner = placed::<T>(front, x);
        assert(in_rank_order::<T>(front)) by {
            assert forall|i: int, j: int| 0 <= i < j < front.len() implies T::may_precede(
                front[i],
                front[j],
            ) by {
                assert(front[i] == sorted[i] && front[j] == sorted[j]);
            }
        }
        lemma_placed_in_rank_order::<T>(front, x);
        lemma_placed_permutes::<T>(front, x);
        T::lemma_total(sorted.last(), x);
        assert forall|i: int, j: int| 0 <= i < j < r.len() implies T::may_precede(r[i], r[j]) by {
            if j < inner.len() {
                assert(r[i] == inner[i] && r[j] == inner[j]);
            } else {
                assert(r[i] == inner[i]);
                inner.to_multiset_ensures();
                front.to_multiset_ensures();
                assert(inner.contains(inner[i]));
                assert(inner.to_multiset().count(inner[i]) > 0);
                if inner[i] != x {
                    assert(front.to_multiset().count(inner[i]) > 0);
                    assert(front.contains(inner[i]));
                    let k = choose|k: int| 0 <= k < front.len() && front[k] == inner[i];
                    assert(front[k] == sorted[k]);
                }
            }
        }
    }
}

/// A ranked list is in rank order.
pub proof fn lemma_ranked_in_rank_order<T: Ranked>(s: Seq<T::V>)
    ensures
        in_rank_order::<T>(ranked::<T>(s)),
    decreases s.len(),
{
    if s.len() > 0 {
        lemma_ranked_in_rank_order::<T>(s.drop_last());
        lemma_placed_in_rank_order::<T>(ranked::<T>(s.drop_last()), s.last());
    }
}

/// Placing a record leaves the order of the records of a class `peers`
/// untouched, where any two records of the class may precede each other.
pub proof fn lemma_placed_is_stable<T: Ranked>(
    sorted: Seq<T::V>,
    x: T::V,
    peers: spec_fn(T::V) -> bool,
)
    requires
        forall|a: T::V, b: T::V| peers(a) && peers(b) ==> T::may_precede(a, b),
    ensures
        placed::<T>(sorted, x).filter(peers) == if peers(x) {
            sorted.filter(peers).push(x)
        } else {
            sorted.filter(peers)
        },
    decreases sorted.len(),
{
    reveal(Seq::filter);
    let r = placed::<T>(sorted, x);
    if sorted.len() == 0 {
        assert(r.drop_last() == sorted);
    } else if T::may_precede(sorted.last(), x) {
        assert(r.drop_last() == sorted);
    } else {
        let front = sorted.drop_last();
        lemma_placed_is_stable::<T>(front, x, peers);
        assert(r.drop_last() == placed::<T>(front, x));
    }
}

/// Ranking is stable: the records of a class in which any two records may
/// precede each other come out in the order in which they went in.
pub proof fn lemma_ranked_is_stable<T: Ranked>(s: Seq<T::V>, peers: spec_fn(T::V) -> bool)
    requires
        forall|a: T::V, b: T::V| peers(a) && peers(b) ==> T::may_precede(a, b),
    ensures
        ranked::<T>(s).filter(peers) == s.filter(peers),
    decreases s.len(),
{
    reveal(Seq::filter);
    if s.len() > 0 {
        lemma_ranked_is_stable::<T>(s.drop_last(), peers);
        lemma_placed_is_stable::<T>(ranked::<T>(s.drop_last()), s.last(), peers);
    }
}

} // verus!
