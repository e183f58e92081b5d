//! The order in which weighted things take their turn: ascending weight, and
//! among equal weights the one that came first stays first.

use vstd::prelude::*;

verus! {

/// Weight of an action or a component: the lower, the earlier.
pub type Weight = isize;

/// Whether entry `a` takes its turn before entry `b`.
pub open spec fn precedes(w: Seq<Weight>, a: int, b: int) -> bool {
    w[a] < w[b] || (w[a] == w[b] && a < b)
}

/// Where a new entry of weight `x` goes into `o`: behind every entry that is
/// not heavier. `p` is the place up to which `o` has still to be looked at.
pub open spec fn turn_of(w: Seq<Weight>, o: Seq<int>, x: Weight, p: int) -> int
    decreases p,
{
    if 0 < p <= o.len() && w[o[p - 1]] > x {
        turn_of(w, o, x, p - 1)
    } else {
        p
    }
}

/// The indices of `w` in the order of their turns.
pub open spec fn stable_order(w: Seq<Weight>) -> Seq<int>
    decreases w.len(),
{
    if w.len() == 0 {
        Seq::empty()
    } else {
        let o = stable_order(w.drop_last());
        o.insert(turn_of(w, o, w.last(), o.len() as int), w.len() - 1)
    }
}

/// `o` lists every index of `w` once, each before those that it precedes.
pub open spec fn is_stable_order(w: Seq<Weight>, o: Seq<int>) -> bool {
    &&& o.len() == w.len()
    &&& forall|k: int| 0 <= k < o.len() ==> 0 <= #[trigger] o[k] < w.len()
    &&& forall|a: int, b: int|
        0 <= a < b < o.len() ==> precedes(w, #[trigger] o[a], #[trigger] o[b])
    &&& forall|i: int| 0 <= i < w.len() ==> #[trigger] o.contains(i)
}

proof fn lemma_turn_of(w: Seq<Weight>, o: Seq<int>, x: Weight, p: int)
    requires
        0 <= p <= o.len(),
    ensures
        0 <= turn_of(w, o, x, p) <= p,
        forall|k: int| turn_of(w, o, x, p) <= k < p ==> w[#[trigger] o[k]] > x,
        turn_of(w, o, x, p) > 0 ==> w[o[turn_of(w, o, x, p) - 1]] <= x,
    decreases p,
{
    if 0 < p && w[o[p - 1]] > x {
        lemma_turn_of(w, o, x, p - 1);
    }
}

/// `stable_order` is the order of turns: it holds every index once, lighter
/// entries come first, and entries of equal weight keep the order they have in `w`.
pub proof fn lemma_stable_order(w: Seq<Weight>)
    ensures
        is_stable_order(w, stable_order(w)),
    decreases w.len(),
{
    if w.len() > 0 {
        let v = w.drop_last();
        let o = stable_order(v);
        let x = w.last();
        let n = w.len() - 1;
        lemma_stable_order(v);
        lemma_turn_of(w, o, x, o.len() as int);
        let p = turn_of(w, o, x, o.len() as int);
        let r = o.insert(p, n);
        assert(r == stable_order(w));
        assert forall|k: int| 0 <= k < o.len() implies w[#[trigger] o[k]] == v[o[k]] by {}
        assert forall|k: int| 0 <= k < p implies w[#[trigger] o[k]] <= x by {
            if k < p - 1 {
                assert(precedes(v, o[k], o[p - 1]));
            }
        }
        assert forall|a: int, b: int| 0 <= a < b < r.len() implies precedes(
            w,
            #[trigger] r[a],
            #[trigger] r[b],
        ) by {
            if a < p && b > p {
                assert(precedes(v, o[a], o[b - 1]));
            } else if a < p && b < p {
                assert(precedes(v, o[a], o[b]));
            } else if a > p {
                assert(precedes(v, o[a - 1], o[b - 1]));
            } else if a == p {
                assert(r[b] == o[b - 1]);
                assert(w[o[b - 1]] > x);
            } else {
                assert(b == p);
                assert(r[a] == o[a]);
                assert(w[o[a]] <= x);
            }
        }
        assert forall|i: int| 0 <= i < w.len() implies #[trigger] r.contains(i) by {
            if i == n {
                assert(r[p] == n);
            } else {
                assert(o.contains(i));
                let k = choose|k: int| 0 <= k < o.len() && o[k] == i;
                if k < p {
                    assert(r[k] == i);
                } else {
                    assert(r[k + 1] == i);
                }
            }
        }
    }
}

/// Of two entries, the one that `precedes` the other stands earlier in the order.
pub proof fn lemma_order_of_turns(w: Seq<Weight>, i: int, j: int)
    requires
        0 <= i < w.len(),
        0 <= j < w.len(),
        precedes(w, i, j),
    ensures
        stable_order(w).contains(i),
        stable_order(w).contains(j),
        stable_order(w).index_of(i) < stable_order(w).index_of(j),
{
    let o = stable_order(w);
    lemma_stable_order(w);
    assert(o.contains(i));
    assert(o.contains(j));
    let a = o.index_of(i);
    let b = o.index_of(j);
    assert(0 <= a < o.len() && o[a] == i);
    assert(0 <= b < o.len() && o[b] == j);
    if b < a {
        assert(precedes(w, o[b], o[a]));
    }
}

/// The indices held by a vector, as integers.
pub open spec fn indices(o: Seq<usize>) -> Seq<int> {
    o.map_values(|x: usize| x as int)
}

/// Computes the order of turns for the given weights.
pub fn order_by_weight(weights: &Vec<Weight>) -> (order: Vec<usize>)
    ensures
        indices(order@) == stable_order(weights@),
        order@.len() == weights@.len(),
        forall|k: int| 0 <= k < order@.len() ==> (#[trigger] order@[k]) < weights@.len(),
{
    let mut order: Vec<usize> = Vec::new();
    let mut i: usize = 0;
    assert(weights@.take(0) == Seq::<Weight>::empty());
    assert(indices(order@) == Seq::<int>::empty());
    while i < weights.len()
        invariant
            i <= weights@.len(),
            indices(order@) == stable_order(weights@.take(i as int)),
        decreases weights@.len() - i,
    {
        let ghost w = weights@.take(i + 1);
        let ghost o = indices(order@);
        proof {
            assert(w.drop_last() == weights@.take(i as int));
            assert(w.last() == weights@[i as int]);
            lemma_stable_order(weights@.take(i as int));
        }
        let x: Weight = weights[i];
        let mut p: usize = order.len();
        while p > 0 && weights[order[p - 1]] > x
            invariant
                p <= order@.len(),
                indices(order@) == o,
                i < weights@.len(),
                w == weights@.take(i + 1),
                x == w.last(),
                forall|k: int| 0 <= k < o.len() ==> 0 <= #[trigger] o[k] < i,
                turn_of(w, o, x, p as int) == turn_of(w, o, x, o.len() as int),
            decreases p,
        {
            assert(o[p - 1] == order@[p - 1] as int);
            p = p - 1;
        }
        proof {
            assert(indices(order@.insert(p as int, i)) == o.insert(p as int, i as int));
        }
        order.insert(p, i);
        i = i + 1;
    }
    proof {
        assert(weights@.take(weights@.len() as int) == weights@);
        lemma_stable_order(weights@);
        assert forall|k: int| 0 <= k < order@.len() implies (#[trigger] order@[k])
            < weights@.len() by {
            assert(indices(order@)[k] == order@[k] as int);
        }
    }
    order
}

} // verus!

verus! {

/// The pieces taken in the given order, one after another.
pub open spec fn in_turns(pieces: Seq<Seq<char>>, order: Seq<int>) -> Seq<char>
    decreases order.len(),
{
    if order.len() == 0 {
        Seq::empty()
    } else {
        in_turns(pieces, order.drop_last()) + pieces[order.last()]
    }
}

/// The pieces in the order of their weights.
pub open spec fn by_weight(pieces: Seq<Seq<char>>, weights: Seq<Weight>) -> Seq<char> {
    in_turns(pieces, stable_order(weights))
}

pub proof fn lemma_in_turns_step(pieces: Seq<Seq<char>>, order: Seq<int>, k: int)
    requires
        0 <= k < order.len(),
    ensures
        in_turns(pieces, order.take(k + 1)) == in_turns(pieces, order.take(k)) + pieces[order[k]],
{
    assert(order.take(k + 1).drop_last() == order.take(k));
}

} // verus!
