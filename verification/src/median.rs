//! Ascending order and the median of a collection of quoted prices.

use vstd::prelude::*;
use vstd::relations::{sorted_by, total_ordering};
use vstd::seq_lib::{group_to_multiset_ensures, lemma_sorted_unique};

verus! {

/// The relation prices are arranged by: ascending.
pub open spec fn ascending() -> spec_fn(i64, i64) -> bool {
    |a: i64, b: i64| a <= b
}

/// `values` arranged in ascending order.
pub open spec fn sorted(values: Seq<i64>) -> Seq<i64> {
    values.sort_by(ascending())
}

/// The quotient `a / b` rounded toward zero, for a positive `b`.
pub open spec fn div_toward_zero(a: int, b: int) -> int
    recommends
        b > 0,
{
    if a >= 0 {
        a / b
    } else {
        -((-a) / b)
    }
}

/// The median of `values`: the middle element of their ascending arrangement,
/// or, for an even count, the mean of the two middle elements rounded toward
/// zero.
pub open spec fn median(values: Seq<i64>) -> int
    recommends
        values.len() > 0,
{
    let s = sorted(values);
    let mid = s.len() as int / 2;
    if s.len() % 2 == 0 {
        div_toward_zero(s[mid - 1] + s[mid], 2)
    } else {
        s[mid] as int
    }
}

/// `<=` on prices is a total order.
pub proof fn lemma_ascending_total()
    ensures
        total_ordering(ascending()),
{
    let r = ascending();
    assert(vstd::relations::reflexive(r));
    assert(vstd::relations::antisymmetric(r));
    assert(vstd::relations::transitive(r));
    assert(vstd::relations::strongly_connected(r));
}

/// The ascending arrangement keeps every value, with its multiplicity, and is
/// in order.
pub proof fn lemma_sorted_arrangement(values: Seq<i64>)
    ensures
        sorted(values).len() == values.len(),
        sorted(values).to_multiset() == values.to_multiset(),
        sorted_by(sorted(values), ascending()),
        forall|i: int| 0 <= i < values.len() ==> values.contains(#[trigger] sorted(values)[i]),
{
    broadcast use group_to_multiset_ensures;

    lemma_ascending_total();
    values.lemma_sort_by_ensures(ascending());
    let s = sorted(values);
    assert(s.to_multiset().len() == values.to_multiset().len());
    assert forall|i: int| 0 <= i < values.len() implies values.contains(#[trigger] s[i]) by {
        assert(s.contains(s[i]));
        assert(s.to_multiset().count(s[i]) > 0);
    }
}

/// A sequence in ascending order is its own ascending arrangement, and so is
/// the arrangement of every sequence with the same values.
pub proof fn lemma_sorted_is_unique(values: Seq<i64>, arranged: Seq<i64>)
    requires
        sorted_by(arranged, ascending()),
        arranged.to_multiset() == values.to_multiset(),
    ensures
        arranged == sorted(values),
{
    lemma_ascending_total();
    lemma_sorted_arrangement(values);
    lemma_sorted_unique(arranged, sorted(values), ascending());
}

/// The median depends on which values are present and how often, not on
/// their order.
pub proof fn lemma_median_ignores_order(a: Seq<i64>, b: Seq<i64>)
    requires
        a.to_multiset() == b.to_multiset(),
    ensures
        sorted(a) == sorted(b),
        median(a) == median(b),
{
    lemma_sorted_arrangement(a);
    lemma_sorted_is_unique(b, sorted(a));
}

/// The median lies between any bounds that hold of every value.
pub proof fn lemma_median_within(values: Seq<i64>, lo: int, hi: int)
    requires
        values.len() > 0,
        forall|i: int| 0 <= i < values.len() ==> lo <= #[trigger] values[i] <= hi,
    ensures
        lo <= median(values) <= hi,
{
    lemma_sorted_arrangement(values);
    let s = sorted(values);
    assert forall|i: int| 0 <= i < s.len() implies lo <= #[trigger] s[i] <= hi by {
        assert(values.contains(s[i]));
    }
    let mid = s.len() as int / 2;
    if s.len() % 2 == 0 {
        let a = s[mid - 1];
        let b = s[mid];
        assert(lo <= a <= hi && lo <= b <= hi);
    } else {
        assert(lo <= s[mid] <= hi);
    }
}

/// Sorts a list of prices in ascending order.
pub fn sort_values(values: &Vec<i64>) -> (out: Vec<i64>)
    ensures
        out@ == sorted(values@),
{
    let mut out: Vec<i64> = Vec::new();
    let mut i: usize = 0;
    assert(out@ =~= values@.take(0));
    while i < values.len()
        invariant
            i <= values.len(),
            out.len() == i,
            sorted_by(out@, ascending()),
            out@.to_multiset() == values@.take(i as int).to_multiset(),
        decreases values.len() - i,
    {
        let x: i64 = values[i];
        let mut j: usize = 0;
        while j < out.len() && out[j] <= x
            invariant
                j <= out.len(),
                forall|k: int| 0 <= k < j ==> out[k] <= x,
            decreases out.len() - j,
        {
            j += 1;
        }
        let ghost before = out@;
        assert(j < before.len() ==> before[j as int] > x);
        out.insert(j, x);
        proof {
            broadcast use group_to_multiset_ensures;

            before.insert_ensures(j as int, x);
            assert forall|a: int, b: int| 0 <= a < b < out@.len() implies #[trigger] ascending()(
                out@[a],
                out@[b],
            ) by {
                if b < j {
                    assert(ascending()(before[a], before[b]));
                } else if b == j {
                    assert(before[a] <= x);
                } else if a < j {
                    assert(before[a] <= x);
                    assert(out@[b] == before[b - 1]);
                    assert(j == b - 1 || ascending()(before[j as int], before[b - 1]));
                } else if a == j {
                    assert(out@[b] == before[b - 1]);
                    assert(j == b - 1 || ascending()(before[j as int], before[b - 1]));
                } else {
                    assert(out@[a] == before[a - 1]);
                    assert(out@[b] == before[b - 1]);
                    assert(ascending()(before[a - 1], before[b - 1]));
                }
            }
            assert(values@.take(i + 1) =~= values@.take(i as int).push(x));
        }
        i += 1;
    }
    proof {
        assert(values@.take(i as int) =~= values@);
        lemma_sorted_is_unique(values@, out@);
    }
    out
}

/// The median of a non-empty list of prices.
pub fn median_of(values: &Vec<i64>) -> (m: i64)
    requires
        values.len() > 0,
    ensures
        m == median(values@),
{
    let s = sort_values(values);
    proof {
        lemma_sorted_arrangement(values@);
    }
    let mid: usize = s.len() / 2;
    if s.len() % 2 == 0 {
        let sum: i128 = s[mid - 1] as i128 + s[mid] as i128;
        (sum / 2) as i64
    } else {
        s[mid]
    }
}

} // verus!
