//! What the service keeps of a consensus price: where it lies in the cache
//! and for how long, and the row it becomes in the history.
//!
//! The stores themselves are the caller's. This module fixes what is handed
//! to them.

use vstd::prelude::*;
use vstd::string::StringExecFns;
use crate::clock::{calendar_time, has_calendar_time};
use crate::price_aggregator::{is_fresh, ConsensusPrice};

verus! {

/// Seconds after which a cached price expires.
pub const CACHE_TTL_SECS: u64 = 5;

/// The cache key of a symbol: `price:` followed by the symbol.
pub open spec fn key_of(symbol: Seq<char>) -> Seq<char> {
    "price:"@ + symbol
}

/// One row of the price history. `timestamp` is the calendar reading of the
/// time of aggregation, empty where the calendar does not reach that far.
#[derive(Debug, Clone)]
pub struct HistoryRow {
    pub symbol: String,
    pub price: i64,
    pub confidence: u64,
    pub timestamp: Option<chrono::NaiveDateTime>,
    pub sources_used: i32,
}

/// The key under which the price of `symbol` is cached.
pub fn cache_key(symbol: &str) -> (key: String)
    ensures
        key@ == key_of(symbol@),
{
    let mut key = String::from_str("price:");
    key.append(symbol);
    key
}

/// The history row of an accepted price. The count of sources is stored in
/// 32 bits, and is cut to them where it is larger.
pub fn history_row(symbol: &str, price: &ConsensusPrice) -> (row: HistoryRow)
    ensures
        row.symbol@ == symbol@,
        row.price == price.price,
        row.confidence == price.confidence,
        row.timestamp is Some <==> has_calendar_time(price.timestamp),
        row.sources_used == price.sources_used as i32,
        price.sources_used <= i32::MAX ==> row.sources_used == price.sources_used,
{
    HistoryRow {
        symbol: String::from_str(symbol),
        price: price.price,
        confidence: price.confidence,
        timestamp: calendar_time(price.timestamp),
        sources_used: #[verifier::truncate]
        (price.sources_used as i32),
    }
}

/// What a query for a symbol's price answers, given what the cache lookup
/// returned: the cached price, or nothing, whether the entry is missing or
/// the lookup failed.
pub fn price_reply<E>(lookup: Result<Option<ConsensusPrice>, E>) -> (reply: Option<ConsensusPrice>)
    ensures
        reply == match lookup {
            Ok(Some(price)) => Some(price),
            _ => None,
        },
{
    match lookup {
        Ok(Some(price)) => Some(price),
        _ => None,
    }
}

/// A price read from the cache before it expires is no older than the
/// aggregator lets a quote be: the cache never serves what the aggregator
/// itself would call stale.
pub proof fn lemma_cached_price_is_fresh(aggregated_at: i64, read_at: i64)
    requires
        read_at - aggregated_at <= CACHE_TTL_SECS,
    ensures
        is_fresh(aggregated_at, read_at),
{
}

} // verus!
