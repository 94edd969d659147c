//! How the aggregator and the validator answer on the same prices.
//!
//! The two follow different policies. The aggregator drops what disagrees
//! with the median and averages the rest; the validator rejects the whole set
//! when anything disagrees. On a set without outliers both answer,
//! and their answers lie within the threshold of each other. On a set with an
//! outlier the validator rejects while the aggregator still answers.

use vstd::prelude::*;
use crate::deviation::{bps_of, distance, exceeds_deviation, magnitude, within_deviation};
use crate::median::{lemma_median_within, median};
use crate::oracle_contract::{
    has_outlier, lemma_validated_median_is_exact, reading_prices, validated_median, ErrorCode,
    PriceData,
};
use crate::price_aggregator::{
    consensus, fresh, fresh_median, is_fresh, lemma_mean_bounded, lemma_unanimous_consensus,
    mean_price, quoted, retained, total_price, Observation,
};
use crate::rearrange::lemma_filter_keeps_all;

verus! {

/// The quotes and the readings carry the same prices, one for one.
pub open spec fn same_prices(quotes: Seq<Observation>, readings: Seq<PriceData>) -> bool {
    &&& quotes.len() == readings.len()
    &&& forall|i: int|
        0 <= i < quotes.len() ==> (#[trigger] quotes[i]).price == readings[i].price
}

/// Every quote is fresh at `now`.
pub open spec fn all_fresh(quotes: Seq<Observation>, now: i64) -> bool {
    forall|i: int| 0 <= i < quotes.len() ==> is_fresh((#[trigger] quotes[i]).timestamp, now)
}

/// A deviation stays under the threshold exactly when, scaled, it stays
/// under the next threshold's share of the base.
pub proof fn lemma_bps_threshold(amount: int, base: int, max_bps: int)
    requires
        amount >= 0,
        base > 0,
        max_bps >= 0,
    ensures
        bps_of(amount, base) <= max_bps <==> amount * 10000 < (max_bps + 1) * base,
{
    assert(bps_of(amount, base) <= max_bps <==> amount * 10000 < (max_bps + 1) * base)
        by (nonlinear_arith)
        requires
            amount >= 0,
            base > 0,
            max_bps >= 0,
            bps_of(amount, base) == amount * 10000 / base,
    ;
}

/// Prices that all lie between two bounds sum to between the bounds times
/// their count.
pub proof fn lemma_total_between(prices: Seq<Observation>, lo: int, hi: int)
    requires
        forall|i: int| 0 <= i < prices.len() ==> lo <= (#[trigger] prices[i]).price <= hi,
    ensures
        prices.len() * lo <= total_price(prices) <= prices.len() * hi,
    decreases prices.len(),
{
    if prices.len() > 0 {
        lemma_total_between(prices.drop_last(), lo, hi);
        let n = prices.len() as int;
        assert(n * lo == (n - 1) * lo + lo && n * hi == (n - 1) * hi + hi) by (nonlinear_arith);
    }
}

/// A filter that some element fails keeps fewer elements than there are.
pub proof fn lemma_filter_drops<A>(s: Seq<A>, pred: spec_fn(A) -> bool, i: int)
    requires
        0 <= i < s.len(),
        !pred(s[i]),
    ensures
        s.filter(pred).len() < s.len(),
    decreases s.len(),
{
    reveal(Seq::filter);
    if i < s.len() - 1 {
        lemma_filter_drops(s.drop_last(), pred, i);
    } else {
        s.drop_last().lemma_filter_len(pred);
    }
}

/// Where every reading carries the same price, other than zero, the
/// validator and the aggregator, given the same prices, all fresh, both
/// answer with exactly that price.
pub proof fn lemma_unanimous_sets_agree_exactly(
    quotes: Seq<Observation>,
    readings: Seq<PriceData>,
    max_bps: u64,
    now: i64,
    price: i64,
)
    requires
        0 < quotes.len() <= usize::MAX,
        same_prices(quotes, readings),
        all_fresh(quotes, now),
        price != 0,
        forall|i: int| 0 <= i < readings.len() ==> (#[trigger] readings[i]).price == price,
    ensures
        validated_median(readings, max_bps) == Ok::<i64, ErrorCode>(price),
        consensus(quotes, max_bps, now) matches Ok(c) && c.price == price && c.sources_used
            == quotes.len(),
{
    lemma_median_within(reading_prices(readings), price as int, price as int);
    assert(bps_of(0, magnitude(price as int)) == 0) by (nonlinear_arith)
        requires
            magnitude(price as int) > 0,
            bps_of(0, magnitude(price as int)) == 0int * 10000 / magnitude(price as int),
    ;
    assert(!has_outlier(readings, price as int, max_bps));
    assert forall|i: int| 0 <= i < quotes.len() implies is_fresh(
        (#[trigger] quotes[i]).timestamp,
        now,
    ) && quotes[i].price == price by {
        assert(quotes[i].price == readings[i].price);
    }
    lemma_unanimous_consensus(quotes, max_bps, now, price);
}

/// Where the validator accepts a set of readings, the aggregator, given the
/// same prices, all fresh, and the same threshold, uses every one of them,
/// and its mean deviates from the validator's median by no more than the
/// threshold.
pub proof fn lemma_accepted_sets_agree(
    quotes: Seq<Observation>,
    readings: Seq<PriceData>,
    max_bps: u64,
    now: i64,
)
    requires
        quotes.len() <= usize::MAX,
        same_prices(quotes, readings),
        all_fresh(quotes, now),
        validated_median(readings, max_bps) is Ok,
    ensures
        validated_median(readings, max_bps) matches Ok(m) && (consensus(quotes, max_bps, now)
            matches Ok(c) && c.sources_used == quotes.len() && !exceeds_deviation(
            c.price as int,
            m as int,
            max_bps as int,
        )),
{
    let m = median(reading_prices(readings));
    let base = magnitude(m);
    let cap = max_bps as int;
    assert(quoted(quotes) =~= reading_prices(readings));
    lemma_filter_keeps_all(quotes, |p: Observation| is_fresh(p.timestamp, now));
    assert(fresh(quotes, now) == quotes);
    assert(fresh_median(quotes, now) == m);
    lemma_validated_median_is_exact(readings, max_bps);
    assert(!exceeds_deviation(readings[0].price as int, m, cap));
    assert(m != 0);

    // The largest distance from the median that the threshold admits.
    let reach = ((cap + 1) * base - 1) / 10000;
    assert(reach * 10000 < (cap + 1) * base && reach >= 0) by (nonlinear_arith)
        requires
            reach == ((cap + 1) * base - 1) / 10000,
            cap >= 0,
            base > 0,
    ;
    assert forall|i: int| 0 <= i < quotes.len() implies m - reach <= (#[trigger] quotes[i]).price
        <= m + reach && within_deviation(quotes[i].price as int, m, cap) by {
        let d = distance(quotes[i].price as int, m);
        assert(!exceeds_deviation(readings[i].price as int, m, cap));
        lemma_bps_threshold(d, base, cap);
        assert(d <= reach) by (nonlinear_arith)
            requires
                d * 10000 < (cap + 1) * base,
                reach == ((cap + 1) * base - 1) / 10000,
        ;
    }
    lemma_filter_keeps_all(
        quotes,
        |p: Observation|
            is_fresh(p.timestamp, now) && within_deviation(p.price as int, m, max_bps as int),
    );
    assert(retained(quotes, now, m, max_bps) == quotes);
    lemma_total_between(quotes, m - reach, m + reach);
    lemma_mean_bounded(total_price(quotes), quotes.len() as int, m - reach, m + reach);
    let mean = mean_price(quotes);
    assert(i64::MIN <= mean <= i64::MAX) by {
        lemma_total_between(quotes, i64::MIN as int, i64::MAX as int);
        lemma_mean_bounded(
            total_price(quotes),
            quotes.len() as int,
            i64::MIN as int,
            i64::MAX as int,
        );
    }
    let d = distance(mean, m);
    assert(d * 10000 < (cap + 1) * base) by (nonlinear_arith)
        requires
            0 <= d <= reach,
            reach * 10000 < (cap + 1) * base,
    ;
    lemma_bps_threshold(d, base, cap);
}

/// Where one reading is an outlier and another is not, the validator rejects
/// the whole set, while the aggregator, given the same prices, all fresh,
/// still answers; against a positive median it answers from fewer quotes than
/// it was given, the outliers being dropped.
pub proof fn lemma_outlier_divides(
    quotes: Seq<Observation>,
    readings: Seq<PriceData>,
    max_bps: u64,
    now: i64,
    outlier: int,
    agreeing: int,
)
    requires
        quotes.len() <= usize::MAX,
        same_prices(quotes, readings),
        all_fresh(quotes, now),
        0 <= outlier < readings.len(),
        0 <= agreeing < readings.len(),
        exceeds_deviation(
            readings[outlier].price as int,
            median(reading_prices(readings)),
            max_bps as int,
        ),
        !exceeds_deviation(
            readings[agreeing].price as int,
            median(reading_prices(readings)),
            max_bps as int,
        ),
    ensures
        validated_median(readings, max_bps) == Err::<i64, _>(ErrorCode::PriceDeviationTooHigh),
        consensus(quotes, max_bps, now) matches Ok(c) && 1 <= c.sources_used <= quotes.len() && (
        median(reading_prices(readings)) > 0 ==> c.sources_used < quotes.len()),
{
    broadcast use Seq::lemma_filter_len;

    let m = median(reading_prices(readings));
    let cap = max_bps as int;
    assert(quoted(quotes) =~= reading_prices(readings));
    lemma_filter_keeps_all(quotes, |p: Observation| is_fresh(p.timestamp, now));
    assert(fresh(quotes, now) == quotes);
    assert(has_outlier(readings, m, max_bps));
    let keep = |p: Observation|
        is_fresh(p.timestamp, now) && within_deviation(p.price as int, m, max_bps as int);
    let kept = retained(quotes, now, m, max_bps);
    assert(keep(quotes[agreeing]));
    quotes.lemma_filter_contains(keep, agreeing);
    assert(kept.len() >= 1);
    if m > 0 {
        assert(!keep(quotes[outlier]));
        lemma_filter_drops(quotes, keep, outlier);
    }
}

} // verus!
