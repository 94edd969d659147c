//! The off-chain consensus engine: stale quotes are dropped, quotes too far
//! from the median are dropped, and the rest are averaged.

use vstd::prelude::*;
use vstd::seq_lib::{commutative_foldl, group_to_multiset_ensures, lemma_fold_left_permutation};
use crate::clock::unix_now;
use crate::deviation::{is_within_deviation, within_deviation};
use crate::median::{
    div_toward_zero, lemma_median_ignores_order, lemma_median_within, median, median_of,
};
use crate::rearrange::{
    lemma_filter_keeps_all, lemma_filter_next, lemma_filter_rearranged, lemma_map_rearranged,
};

verus! {

/// Maximum age, in seconds, of a quote that still counts.
pub const STALENESS_WINDOW_SECS: i64 = 30;

/// The deviation threshold that the service runs with unless told otherwise:
/// 100 bps, that is 1%.
pub const DEFAULT_MAX_DEVIATION_BPS: u64 = 100;

/// One feed's quote for an asset.
///
/// `confidence` is an absolute error bound in the unit of `price`, and
/// `timestamp` is in seconds since the Unix epoch.
#[derive(Debug, Clone)]
pub struct SourcePrice {
    pub price: i64,
    pub confidence: u64,
    pub timestamp: i64,
    pub source: String,
}

/// A quote as the contracts see it: [`SourcePrice`] with its source's name
/// as a sequence of characters.
pub struct Observation {
    pub price: i64,
    pub confidence: u64,
    pub timestamp: i64,
    pub source: Seq<char>,
}

impl View for SourcePrice {
    type V = Observation;

    open spec fn view(&self) -> Observation {
        Observation {
            price: self.price,
            confidence: self.confidence,
            timestamp: self.timestamp,
            source: self.source@,
        }
    }
}

/// The quotes of a list, each by its view.
pub open spec fn observations(prices: Seq<SourcePrice>) -> Seq<Observation> {
    prices.map_values(|p: SourcePrice| p@)
}

/// The price agreed on by the feeds that passed both filters.
///
/// `timestamp` is the time of aggregation, not of any quote, and
/// `sources_used` is at least 1.
#[derive(Debug, Clone, Copy, PartialEq, Eq, Structural)]
pub struct ConsensusPrice {
    pub price: i64,
    pub confidence: u64,
    pub timestamp: i64,
    pub sources_used: usize,
}

/// Why no consensus price could be formed.
#[derive(Debug, Clone, Copy, PartialEq, Eq, Structural)]
pub enum ConsensusError {
    /// No quote was supplied.
    EmptyInput,
    /// Every quote was older than the staleness window.
    AllStale,
    /// No fresh quote lay within the deviation threshold of the median.
    NoConsensus,
}

impl ConsensusError {
    /// The error in words.
    pub open spec fn text(self) -> Seq<char> {
        match self {
            ConsensusError::EmptyInput => "No prices to aggregate"@,
            ConsensusError::AllStale => "All prices are stale"@,
            ConsensusError::NoConsensus => "No prices within deviation threshold"@,
        }
    }

    /// The error in words.
    pub fn message(&self) -> (text: &'static str)
        ensures
            text@ == self.text(),
    {
        match self {
            ConsensusError::EmptyInput => "No prices to aggregate",
            ConsensusError::AllStale => "All prices are stale",
            ConsensusError::NoConsensus => "No prices within deviation threshold",
        }
    }
}

/// Is a quote stamped `timestamp` still fresh at `now`? Its age may not
/// exceed the staleness window.
pub open spec fn is_fresh(timestamp: i64, now: i64) -> bool {
    now - timestamp <= STALENESS_WINDOW_SECS
}

/// The quotes that are fresh at `now`, in their given order.
pub open spec fn fresh(prices: Seq<Observation>, now: i64) -> Seq<Observation> {
    prices.filter(|p: Observation| is_fresh(p.timestamp, now))
}

/// The prices that the quotes carry.
pub open spec fn quoted(prices: Seq<Observation>) -> Seq<i64> {
    prices.map_values(|p: Observation| p.price)
}

/// The median price of the quotes that are fresh at `now`.
pub open spec fn fresh_median(prices: Seq<Observation>, now: i64) -> int {
    median(quoted(fresh(prices, now)))
}

/// The quotes that are fresh at `now` and within `max_bps` of `median`.
pub open spec fn retained(prices: Seq<Observation>, now: i64, median: int, max_bps: u64) -> Seq<
    Observation,
> {
    prices.filter(
        |p: Observation|
            is_fresh(p.timestamp, now) && within_deviation(p.price as int, median, max_bps as int),
    )
}

/// The sum of the quotes' prices.
pub open spec fn total_price(prices: Seq<Observation>) -> int {
    prices.fold_left(0int, |sum: int, p: Observation| sum + p.price)
}

/// The largest confidence bound among the quotes, 0 for none.
pub open spec fn widest_confidence(prices: Seq<Observation>) -> int {
    prices.fold_left(
        0int,
        |widest: int, p: Observation|
            if p.confidence > widest {
                p.confidence as int
            } else {
                widest
            },
    )
}

/// The arithmetic mean of the quotes' prices, rounded toward zero.
pub open spec fn mean_price(prices: Seq<Observation>) -> int
    recommends
        prices.len() > 0,
{
    div_toward_zero(total_price(prices), prices.len() as int)
}

/// The outcome of aggregating `prices` at time `now` under the threshold
/// `max_bps`.
pub open spec fn consensus(prices: Seq<Observation>, max_bps: u64, now: i64) -> Result<
    ConsensusPrice,
    ConsensusError,
> {
    let kept = retained(prices, now, fresh_median(prices, now), max_bps);
    if prices.len() == 0 {
        Err(ConsensusError::EmptyInput)
    } else if fresh(prices, now).len() == 0 {
        Err(ConsensusError::AllStale)
    } else if kept.len() == 0 {
        Err(ConsensusError::NoConsensus)
    } else {
        Ok(
            ConsensusPrice {
                price: mean_price(kept) as i64,
                confidence: widest_confidence(kept) as u64,
                timestamp: now,
                sources_used: kept.len() as usize,
            },
        )
    }
}

/// Aggregates quotes into a consensus price.
pub struct PriceAggregator {
    max_deviation_bps: u64,
}

impl PriceAggregator {
    /// The deviation threshold, in basis points of the median.
    pub closed spec fn max_deviation(&self) -> u64 {
        self.max_deviation_bps
    }

    /// An aggregator that drops quotes deviating from the median by more
    /// than `max_deviation_bps`.
    pub fn new(max_deviation_bps: u64) -> (aggregator: Self)
        ensures
            aggregator.max_deviation() == max_deviation_bps,
    {
        Self { max_deviation_bps }
    }

    /// The deviation threshold, in basis points of the median.
    pub fn max_deviation_bps(&self) -> (bps: u64)
        ensures
            bps == self.max_deviation(),
    {
        self.max_deviation_bps
    }

    /// Aggregates `prices` as of the system clock's current time.
    ///
    /// The clock is read once; the result is the consensus at whatever time
    /// it returned.
    pub fn calculate_consensus(&self, prices: Vec<SourcePrice>) -> (result: Result<
        ConsensusPrice,
        ConsensusError,
    >)
        ensures
            exists|now: i64|
                result == consensus(observations(prices@), self.max_deviation(), now),
            prices@.len() == 0 <==> result == Err::<ConsensusPrice, _>(ConsensusError::EmptyInput),
            result matches Ok(c) ==> 1 <= c.sources_used <= prices@.len(),
    {
        let now = unix_now();
        self.calculate_consensus_at(prices, now)
    }

    /// Aggregates `prices` as of time `now`.
    pub fn calculate_consensus_at(&self, prices: Vec<SourcePrice>, now: i64) -> (result: Result<
        ConsensusPrice,
        ConsensusError,
    >)
        ensures
            result == consensus(observations(prices@), self.max_deviation(), now),
            prices@.len() == 0 <==> result == Err::<ConsensusPrice, _>(ConsensusError::EmptyInput),
            result matches Ok(c) ==> 1 <= c.sources_used <= prices@.len() && c.timestamp == now,
    {
        let ghost quotes = observations(prices@);
        proof {
            assert(prices@.len() == prices.len());
            lemma_consensus_counts(quotes, self.max_deviation(), now);
        }
        if prices.len() == 0 {
            return Err(ConsensusError::EmptyInput);
        }
        let ghost is_current = |p: Observation| is_fresh(p.timestamp, now);
        let mut values: Vec<i64> = Vec::new();
        let mut i: usize = 0;
        assert(quotes.take(0).filter(is_current).len() == 0) by {
            reveal(Seq::filter);
        }
        assert(values@ =~= quoted(fresh(quotes.take(0), now)));
        while i < prices.len()
            invariant
                i <= prices.len(),
                quotes == observations(prices@),
                is_current == |p: Observation| is_fresh(p.timestamp, now),
                values@ == quoted(fresh(quotes.take(i as int), now)),
            decreases prices.len() - i,
        {
            let ghost seen = fresh(quotes.take(i as int), now);
            proof {
                lemma_filter_next(quotes, i as int, is_current);
            }
            if now as i128 - prices[i].timestamp as i128 <= STALENESS_WINDOW_SECS as i128 {
                values.push(prices[i].price);
                assert(values@ =~= quoted(seen.push(quotes[i as int])));
            }
            i += 1;
        }
        assert(quotes.take(i as int) =~= quotes);
        if values.len() == 0 {
            return Err(ConsensusError::AllStale);
        }
        let m = median_of(&values);
        let max_bps = self.max_deviation_bps;
        let ghost keep = |p: Observation|
            is_fresh(p.timestamp, now) && within_deviation(
                p.price as int,
                m as int,
                max_bps as int,
            );

        let mut count: usize = 0;
        let mut total: i128 = 0;
        let mut widest: u64 = 0;
        let mut k: usize = 0;
        assert(quotes.take(0).filter(keep).len() == 0) by {
            reveal(Seq::filter);
        }
        while k < prices.len()
            invariant
                k <= prices.len(),
                quotes == observations(prices@),
                keep == |p: Observation|
                    is_fresh(p.timestamp, now) && within_deviation(
                        p.price as int,
                        m as int,
                        max_bps as int,
                    ),
                count == quotes.take(k as int).filter(keep).len(),
                count <= k,
                total == total_price(quotes.take(k as int).filter(keep)),
                widest == widest_confidence(quotes.take(k as int).filter(keep)),
            decreases prices.len() - k,
        {
            let ghost seen = quotes.take(k as int).filter(keep);
            proof {
                lemma_filter_next(quotes, k as int, keep);
                lemma_totals_bounded(seen);
            }
            let p = &prices[k];
            if now as i128 - p.timestamp as i128 <= STALENESS_WINDOW_SECS as i128
                && is_within_deviation(p.price, m, max_bps) {
                assert(seen.push(p@).drop_last() =~= seen);
                assert(seen.push(p@).last() == p@);
                count += 1;
                total = total + p.price as i128;
                if p.confidence > widest {
                    widest = p.confidence;
                }
            }
            k += 1;
        }
        assert(quotes.take(k as int) =~= quotes);
        if count == 0 {
            return Err(ConsensusError::NoConsensus);
        }
        proof {
            let kept = retained(quotes, now, m as int, max_bps);
            lemma_totals_bounded(kept);
            lemma_mean_bounded(total as int, count as int, i64::MIN as int, i64::MAX as int);
        }
        Ok(
            ConsensusPrice {
                price: (total / count as i128) as i64,
                confidence: widest,
                timestamp: now,
                sources_used: count,
            },
        )
    }
}

/// The sum of the prices and the widest confidence bound stay within what
/// the count of the quotes and the width of their fields allow.
pub proof fn lemma_totals_bounded(prices: Seq<Observation>)
    ensures
        prices.len() * i64::MIN <= total_price(prices) <= prices.len() * i64::MAX,
        0 <= widest_confidence(prices) <= u64::MAX,
    decreases prices.len(),
{
    if prices.len() > 0 {
        lemma_totals_bounded(prices.drop_last());
    }
}

/// The widest confidence bound is at least every quote's bound, and is the
/// bound of one of the quotes where there are any: the consensus never
/// understates the uncertainty of what it rests on.
pub proof fn lemma_widest_confidence_is_maximum(prices: Seq<Observation>)
    ensures
        forall|i: int|
            0 <= i < prices.len() ==> (#[trigger] prices[i]).confidence <= widest_confidence(
                prices,
            ),
        prices.len() > 0 ==> exists|i: int|
            0 <= i < prices.len() && (#[trigger] prices[i]).confidence == widest_confidence(
                prices,
            ),
    decreases prices.len(),
{
    if prices.len() > 0 {
        let rest = prices.drop_last();
        lemma_widest_confidence_is_maximum(rest);
        assert forall|i: int| 0 <= i < prices.len() implies (#[trigger] prices[i]).confidence
            <= widest_confidence(prices) by {
            if i < rest.len() {
                assert(rest[i] == prices[i]);
            }
        }
        if prices.last().confidence > widest_confidence(rest) || rest.len() == 0 {
            assert(prices[prices.len() - 1].confidence == widest_confidence(prices));
        } else {
            let j = choose|j: int|
                0 <= j < rest.len() && (#[trigger] rest[j]).confidence == widest_confidence(rest);
            assert(prices[j].confidence == widest_confidence(prices));
        }
    }
}

/// Quotes that all carry the same price sum to that price times their count.
pub proof fn lemma_total_of_equal_prices(prices: Seq<Observation>, price: i64)
    requires
        forall|i: int| 0 <= i < prices.len() ==> (#[trigger] prices[i]).price == price,
    ensures
        total_price(prices) == prices.len() * price,
    decreases prices.len(),
{
    if prices.len() > 0 {
        lemma_total_of_equal_prices(prices.drop_last(), price);
        assert(prices.len() * price == (prices.len() - 1) * price + price) by (nonlinear_arith);
    }
}

/// A quotient rounded toward zero stays within bounds that hold of the
/// dividend per unit of the divisor.
pub proof fn lemma_mean_bounded(total: int, count: int, lo: int, hi: int)
    requires
        count > 0,
        count * lo <= total <= count * hi,
    ensures
        lo <= div_toward_zero(total, count) <= hi,
{
    if total >= 0 {
        assert(lo <= total / count <= hi) by (nonlinear_arith)
            requires
                count > 0,
                count * lo <= total <= count * hi,
        ;
    } else {
        assert(-hi <= (-total) / count <= -lo) by (nonlinear_arith)
            requires
                count > 0,
                count * lo <= total <= count * hi,
        ;
    }
}

/// A consensus price rests on at least one quote and on no more than were
/// supplied; with no quotes the outcome is `EmptyInput`, and only then.
pub proof fn lemma_consensus_counts(prices: Seq<Observation>, max_bps: u64, now: i64)
    requires
        prices.len() <= usize::MAX,
    ensures
        consensus(prices, max_bps, now) matches Ok(c) ==> 1 <= c.sources_used <= prices.len(),
        prices.len() == 0 <==> consensus(prices, max_bps, now) == Err::<ConsensusPrice, _>(
            ConsensusError::EmptyInput,
        ),
{
    let kept = retained(prices, now, fresh_median(prices, now), max_bps);
    broadcast use Seq::lemma_filter_len;

    assert(kept.len() <= prices.len());
}

/// A consensus price is exactly what its definition names: the mean of the
/// retained quotes, their widest confidence bound and their count all fit
/// the fields that hold them.
pub proof fn lemma_consensus_is_exact(prices: Seq<Observation>, max_bps: u64, now: i64)
    requires
        prices.len() <= usize::MAX,
    ensures
        consensus(prices, max_bps, now) matches Ok(c) ==> {
            let kept = retained(prices, now, fresh_median(prices, now), max_bps);
            &&& c.price == mean_price(kept)
            &&& c.confidence == widest_confidence(kept)
            &&& c.sources_used == kept.len()
            &&& c.timestamp == now
        },
{
    let kept = retained(prices, now, fresh_median(prices, now), max_bps);
    broadcast use Seq::lemma_filter_len;

    assert(kept.len() <= prices.len());
    if kept.len() > 0 {
        lemma_totals_bounded(kept);
        lemma_mean_bounded(
            total_price(kept),
            kept.len() as int,
            i64::MIN as int,
            i64::MAX as int,
        );
    }
}

/// When every quote is fresh and all carry the same price, the consensus
/// price is that price and every quote is used. A common price of zero is
/// left out: it makes the median zero, against which nothing is within
/// reach.
pub proof fn lemma_unanimous_consensus(
    prices: Seq<Observation>,
    max_bps: u64,
    now: i64,
    price: i64,
)
    requires
        0 < prices.len() <= usize::MAX,
        price != 0,
        forall|i: int|
            0 <= i < prices.len() ==> is_fresh((#[trigger] prices[i]).timestamp, now)
                && prices[i].price == price,
    ensures
        consensus(prices, max_bps, now) matches Ok(c) && c.price == price && c.sources_used
            == prices.len() && c.timestamp == now,
{
    lemma_filter_keeps_all(prices, |p: Observation| is_fresh(p.timestamp, now));
    assert(fresh(prices, now) == prices);
    lemma_median_within(quoted(prices), price as int, price as int);
    let m = fresh_median(prices, now);
    assert(m == price);
    assert(within_deviation(price as int, m, max_bps as int)) by {
        if price > 0 {
            assert(0int * 10000 / (price as int) == 0) by (nonlinear_arith)
                requires
                    price > 0,
            ;
        }
    }
    lemma_filter_keeps_all(
        prices,
        |p: Observation|
            is_fresh(p.timestamp, now) && within_deviation(p.price as int, m, max_bps as int),
    );
    assert(retained(prices, now, m, max_bps) == prices);
    lemma_total_of_equal_prices(prices, price);
    let n = prices.len() as int;
    assert(div_toward_zero(n * price, n) == price) by (nonlinear_arith)
        requires
            n > 0,
    ;
}

/// The outcome depends on which quotes are supplied and on the time, not on
/// the order in which they come: the same quotes at the same time always give
/// the same outcome.
pub proof fn lemma_consensus_ignores_order(
    a: Seq<Observation>,
    b: Seq<Observation>,
    max_bps: u64,
    now: i64,
)
    requires
        a.to_multiset() == b.to_multiset(),
    ensures
        consensus(a, max_bps, now) == consensus(b, max_bps, now),
{
    broadcast use group_to_multiset_ensures;

    assert(a.to_multiset().len() == a.len());
    assert(b.to_multiset().len() == b.len());
    let is_current = |p: Observation| is_fresh(p.timestamp, now);
    lemma_filter_rearranged(a, b, is_current);
    lemma_map_rearranged(fresh(a, now), fresh(b, now), |p: Observation| p.price);
    lemma_median_ignores_order(quoted(fresh(a, now)), quoted(fresh(b, now)));
    let m = fresh_median(a, now);
    let keep = |p: Observation|
        is_fresh(p.timestamp, now) && within_deviation(p.price as int, m, max_bps as int);
    lemma_filter_rearranged(a, b, keep);
    let kept_a = retained(a, now, m, max_bps);
    let kept_b = retained(b, now, m, max_bps);
    let add = |sum: int, p: Observation| sum + p.price;
    let widen = |widest: int, p: Observation|
        if p.confidence > widest {
            p.confidence as int
        } else {
            widest
        };
    assert(commutative_foldl(add));
    assert(commutative_foldl(widen));
    lemma_fold_left_permutation(kept_a, kept_b, add, 0int);
    lemma_fold_left_permutation(kept_a, kept_b, widen, 0int);
}

} // verus!
