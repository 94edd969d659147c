//! Facts about filtering and mapping a sequence, and about sequences that
//! hold the same elements in a different order.

use vstd::prelude::*;
use vstd::multiset::group_multiset_axioms;
use vstd::seq_lib::group_to_multiset_ensures;

verus! {

/// One more element either joins what a filter keeps or leaves it as it was.
pub proof fn lemma_filter_next<A>(s: Seq<A>, i: int, pred: spec_fn(A) -> bool)
    requires
        0 <= i < s.len(),
    ensures
        s.take(i + 1).filter(pred) == if pred(s[i]) {
            s.take(i).filter(pred).push(s[i])
        } else {
            s.take(i).filter(pred)
        },
{
    reveal(Seq::filter);
    assert(s.take(i + 1).drop_last() =~= s.take(i));
}

/// A filter that every element passes keeps the sequence as it is.
pub proof fn lemma_filter_keeps_all<A>(s: Seq<A>, pred: spec_fn(A) -> bool)
    requires
        forall|i: int| 0 <= i < s.len() ==> pred(#[trigger] s[i]),
    ensures
        s.filter(pred) == s,
    decreases s.len(),
{
    reveal(Seq::filter);
    if s.len() > 0 {
        lemma_filter_keeps_all(s.drop_last(), pred);
        assert(s.drop_last().push(s.last()) =~= s);
    }
}

/// What a filter keeps of a sequence, counted, is what passes it among the
/// sequence's elements, counted.
pub proof fn lemma_filter_counts<A>(s: Seq<A>, pred: spec_fn(A) -> bool)
    ensures
        s.filter(pred).to_multiset() == s.to_multiset().filter(pred),
    decreases s.len(),
{
    broadcast use {group_to_multiset_ensures, group_multiset_axioms};

    reveal(Seq::filter);
    if s.len() == 0 {
        assert(s.filter(pred).to_multiset() =~= s.to_multiset().filter(pred));
    } else {
        let init = s.drop_last();
        let x = s.last();
        lemma_filter_counts(init, pred);
        assert(s =~= init.push(x));
        assert(s.to_multiset() =~= init.to_multiset().insert(x));
        assert(s.filter(pred).to_multiset() =~= s.to_multiset().filter(pred));
    }
}

/// Filtering two arrangements of the same elements keeps the same elements.
pub proof fn lemma_filter_rearranged<A>(a: Seq<A>, b: Seq<A>, pred: spec_fn(A) -> bool)
    requires
        a.to_multiset() == b.to_multiset(),
    ensures
        a.filter(pred).to_multiset() == b.filter(pred).to_multiset(),
        a.filter(pred).len() == b.filter(pred).len(),
{
    broadcast use group_to_multiset_ensures;

    lemma_filter_counts(a, pred);
    lemma_filter_counts(b, pred);
    assert(a.filter(pred).to_multiset().len() == a.filter(pred).len());
    assert(b.filter(pred).to_multiset().len() == b.filter(pred).len());
}

/// The last element of `a` stands somewhere in every rearrangement `b` of
/// it, and without it the two are still rearrangements of each other.
pub proof fn lemma_rearranged_last<A>(a: Seq<A>, b: Seq<A>) -> (j: int)
    requires
        a.len() > 0,
        a.to_multiset() == b.to_multiset(),
    ensures
        0 <= j < b.len(),
        b[j] == a.last(),
        a.drop_last().to_multiset() == b.remove(j).to_multiset(),
{
    broadcast use {group_to_multiset_ensures, group_multiset_axioms};

    let x = a.last();
    assert(a.contains(x));
    assert(b.to_multiset().count(x) > 0);
    assert(b.contains(x));
    let j = choose|j: int| 0 <= j < b.len() && b[j] == x;
    assert(a.drop_last() =~= a.remove(a.len() - 1));
    assert(a.drop_last().to_multiset() =~= b.remove(j).to_multiset());
    j
}

/// Mapping two arrangements of the same elements gives two arrangements of
/// the same images.
pub proof fn lemma_map_rearranged<A, B>(a: Seq<A>, b: Seq<A>, f: spec_fn(A) -> B)
    requires
        a.to_multiset() == b.to_multiset(),
    ensures
        a.map_values(f).to_multiset() == b.map_values(f).to_multiset(),
    decreases a.len(),
{
    broadcast use {group_to_multiset_ensures, group_multiset_axioms};

    assert(a.to_multiset().len() == a.len());
    assert(b.to_multiset().len() == b.len());
    if a.len() == 0 {
        assert(a.map_values(f) =~= b.map_values(f));
    } else {
        let j = lemma_rearranged_last(a, b);
        lemma_map_rearranged(a.drop_last(), b.remove(j), f);
        let fa = a.map_values(f);
        let fb = b.map_values(f);
        assert(fa.drop_last() =~= a.drop_last().map_values(f));
        assert(fb.remove(j) =~= b.remove(j).map_values(f));
        assert(fa =~= fa.drop_last().push(f(a.last())));
        assert(fa.to_multiset() =~= fa.drop_last().to_multiset().insert(f(a.last())));
        assert(fb.remove(j).to_multiset() =~= fb.to_multiset().remove(fb[j]));
        assert(fb.to_multiset().count(fb[j]) > 0) by {
            assert(fb.contains(fb[j]));
        }
        assert(fa.to_multiset() =~= fb.to_multiset());
    }
}

} // verus!
