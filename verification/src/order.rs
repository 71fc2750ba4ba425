//! Sequences that hold the same elements in another order.
//!
//! Two sequences are rearrangements of each other when each element occurs
//! as often in the one as in the other, that is, when their multisets are
//! equal.

use vstd::prelude::*;
use vstd::seq_lib::group_to_multiset_ensures;

verus! {

/// Rearranged sequences are equally long, and what occurs in one occurs in
/// the other.
pub proof fn lemma_rearranged_holds_the_same<A>(a: Seq<A>, b: Seq<A>)
    requires
        a.to_multiset() == b.to_multiset(),
    ensures
        a.len() == b.len(),
        forall|x: A| a.contains(x) == b.contains(x),
{
    broadcast use group_to_multiset_ensures;

    assert(a.len() == a.to_multiset().len() && b.len() == b.to_multiset().len());
    assert forall|x: A| a.contains(x) == b.contains(x) by {
        assert(a.contains(x) == (a.to_multiset().count(x) > 0));
        assert(b.contains(x) == (b.to_multiset().count(x) > 0));
    }
}

/// A function applied to each element of rearranged sequences gives
/// rearranged sequences.
pub proof fn lemma_rearranged_under_map<A, B>(a: Seq<A>, b: Seq<A>, f: spec_fn(A) -> B)
    requires
        a.to_multiset() == b.to_multiset(),
    ensures
        a.map_values(f).to_multiset() == b.map_values(f).to_multiset(),
    decreases a.len(),
{
    broadcast use group_to_multiset_ensures;

    lemma_rearranged_holds_the_same(a, b);
    if a.len() > 0 {
        let x = a.last();
        let front = a.drop_last();
        assert(a =~= front.push(x));
        assert(a.contains(x));
        let k = choose|k: int| 0 <= k < b.len() && b[k] == x;
        let rest = b.remove(k);
        assert(front.to_multiset() =~= rest.to_multiset()) by {
            assert(a.to_multiset() =~= front.to_multiset().insert(x));
            assert(rest.to_multiset() =~= b.to_multiset().remove(x));
        }
        lemma_rearranged_under_map(front, rest, f);
        assert(a.map_values(f) =~= front.map_values(f).push(f(x)));
        assert(b.map_values(f) =~= rest.map_values(f).insert(k, f(x)));
    }
}

} // verus!
