//! The on-chain validator: a policy account per symbol, a check of each
//! feed's reading against it, and a strict consensus check that rejects a
//! whole set of readings when any one of them disagrees with their median.
//!
//! Each entry point takes its accounts as plain values. Decoding a feed
//! account and reading the chain's clock are left to the caller, who passes
//! in what they gave.

use vstd::prelude::*;
use crate::deviation::{
    exceeds_confidence, exceeds_deviation, is_beyond_confidence, is_beyond_deviation,
};
use crate::median::{lemma_median_within, median, median_of};

verus! {

/// The identity of an account or of a signer.
pub type Address = [u8; 32];

/// The validation policy of one symbol, as stored on chain.
#[derive(Debug, Clone)]
pub struct OracleConfig {
    pub symbol: String,
    /// The identity that created the policy and may update it.
    pub authority: Address,
    /// Maximum age of a reading, in seconds.
    pub max_staleness: i64,
    /// Maximum error bound of a reading, in basis points of its price.
    pub max_confidence: u64,
    /// Maximum deviation of a reading from the median, in basis points.
    pub max_deviation: u64,
}

/// What a provider's feed account decodes to.
#[derive(Debug, Clone, Copy, PartialEq, Eq, Structural)]
pub struct FeedPrice {
    pub price: i64,
    pub conf: u64,
    pub expo: i32,
    pub publish_time: i64,
}

/// The provider a reading came from.
#[derive(Debug, Clone, Copy, PartialEq, Eq, Structural)]
pub enum PriceSource {
    Pyth,
    Switchboard,
    Internal,
}

/// A reading that passed the policy's checks, tagged with its source.
#[derive(Debug, Clone, Copy, PartialEq, Eq, Structural)]
pub struct PriceData {
    pub price: i64,
    pub confidence: u64,
    pub expo: i32,
    pub timestamp: i64,
    pub source: PriceSource,
}

/// Why an instruction was rejected.
#[derive(Debug, Clone, Copy, PartialEq, Eq, Structural)]
pub enum ErrorCode {
    /// The policy account already exists.
    AlreadyInitialized,
    /// The feed account does not decode to a reading.
    InvalidFeed,
    /// The reading is older than the policy allows.
    StalePrice,
    /// The reading's error bound is wider than the policy allows.
    LowConfidence,
    /// No reading was supplied.
    NoPricesProvided,
    /// A reading deviates from the median by more than the policy allows.
    PriceDeviationTooHigh,
}

impl ErrorCode {
    /// The rejection in words.
    pub open spec fn text(self) -> Seq<char> {
        match self {
            ErrorCode::AlreadyInitialized => "Oracle config is already initialized"@,
            ErrorCode::InvalidFeed => "Price feed is invalid"@,
            ErrorCode::StalePrice => "Price is stale"@,
            ErrorCode::LowConfidence => "Confidence interval is too low"@,
            ErrorCode::NoPricesProvided => "No prices provided for consensus"@,
            ErrorCode::PriceDeviationTooHigh => "Price deviation exceeds threshold"@,
        }
    }

    /// The rejection in words.
    pub fn message(&self) -> (text: &'static str)
        ensures
            text@ == self.text(),
    {
        match self {
            ErrorCode::AlreadyInitialized => "Oracle config is already initialized",
            ErrorCode::InvalidFeed => "Price feed is invalid",
            ErrorCode::StalePrice => "Price is stale",
            ErrorCode::LowConfidence => "Confidence interval is too low",
            ErrorCode::NoPricesProvided => "No prices provided for consensus",
            ErrorCode::PriceDeviationTooHigh => "Price deviation exceeds threshold",
        }
    }
}

/// Accounts of `initialize`: the policy slot, empty until created, and the
/// signer creating it.
pub struct Initialize {
    pub oracle_config: Option<OracleConfig>,
    pub authority: Address,
}

/// Accounts of `get_pyth_price`: the policy, and the Pyth feed account as
/// decoded, `None` where it does not decode.
pub struct GetPythPrice {
    pub oracle_config: OracleConfig,
    pub price_feed: Option<FeedPrice>,
}

/// Accounts of `get_switchboard_price`: the policy, and the Switchboard
/// aggregator account as decoded, `None` where it does not decode.
pub struct GetSwitchboardPrice {
    pub oracle_config: OracleConfig,
    pub aggregator: Option<FeedPrice>,
}

/// Accounts of `validate_price_consensus`: the policy.
pub struct ValidatePrice {
    pub oracle_config: OracleConfig,
}

/// Is a reading published at `publish_time` too old at `now`?
pub open spec fn is_stale(publish_time: i64, now: i64, max_staleness: i64) -> bool {
    now - publish_time > max_staleness
}

/// The outcome of checking one feed's reading against the policy.
pub open spec fn checked_reading(
    config: OracleConfig,
    feed: Option<FeedPrice>,
    source: PriceSource,
    now: i64,
) -> Result<PriceData, ErrorCode> {
    match feed {
        None => Err(ErrorCode::InvalidFeed),
        Some(reading) => if is_stale(reading.publish_time, now, config.max_staleness) {
            Err(ErrorCode::StalePrice)
        } else if exceeds_confidence(
            reading.conf as int,
            reading.price as int,
            config.max_confidence as int,
        ) {
            Err(ErrorCode::LowConfidence)
        } else {
            Ok(
                PriceData {
                    price: reading.price,
                    confidence: reading.conf,
                    expo: reading.expo,
                    timestamp: reading.publish_time,
                    source,
                },
            )
        },
    }
}

/// The prices that the readings carry.
pub open spec fn reading_prices(prices: Seq<PriceData>) -> Seq<i64> {
    prices.map_values(|p: PriceData| p.price)
}

/// Does some reading deviate from `median` by more than `max_bps`?
pub open spec fn has_outlier(prices: Seq<PriceData>, median: int, max_bps: u64) -> bool {
    exists|i: int|
        0 <= i < prices.len() && exceeds_deviation(
            (#[trigger] prices[i]).price as int,
            median,
            max_bps as int,
        )
}

/// The outcome of validating a set of readings: their median, unless there
/// are none or one of them is an outlier.
pub open spec fn validated_median(prices: Seq<PriceData>, max_bps: u64) -> Result<i64, ErrorCode> {
    let m = median(reading_prices(prices));
    if prices.len() == 0 {
        Err(ErrorCode::NoPricesProvided)
    } else if has_outlier(prices, m, max_bps) {
        Err(ErrorCode::PriceDeviationTooHigh)
    } else {
        Ok(m as i64)
    }
}

/// Creates the policy for `symbol`, bound to the signer. Fails, changing
/// nothing, where the policy account already exists.
pub fn initialize(
    ctx: &mut Initialize,
    symbol: String,
    max_staleness: i64,
    max_confidence: u64,
    max_deviation: u64,
) -> (result: Result<(), ErrorCode>)
    ensures
        old(ctx).oracle_config is Some ==> result == Err::<(), _>(ErrorCode::AlreadyInitialized)
            && *final(ctx) == *old(ctx),
        old(ctx).oracle_config is None ==> result is Ok && final(ctx).authority == old(
            ctx,
        ).authority && final(ctx).oracle_config == Some(
            OracleConfig {
                symbol,
                authority: old(ctx).authority,
                max_staleness,
                max_confidence,
                max_deviation,
            },
        ),
{
    if ctx.oracle_config.is_some() {
        return Err(ErrorCode::AlreadyInitialized);
    }
    ctx.oracle_config = Some(
        OracleConfig {
            symbol,
            authority: ctx.authority,
            max_staleness,
            max_confidence,
            max_deviation,
        },
    );
    Ok(())
}

/// Checks one feed's reading against the policy at time `now` and tags it
/// with `source`.
pub fn get_feed_price(
    config: &OracleConfig,
    feed: Option<FeedPrice>,
    source: PriceSource,
    now: i64,
) -> (result: Result<PriceData, ErrorCode>)
    ensures
        result == checked_reading(*config, feed, source, now),
{
    match feed {
        None => Err(ErrorCode::InvalidFeed),
        Some(reading) => {
            if now as i128 - reading.publish_time as i128 > config.max_staleness as i128 {
                Err(ErrorCode::StalePrice)
            } else if is_beyond_confidence(reading.conf, reading.price, config.max_confidence) {
                Err(ErrorCode::LowConfidence)
            } else {
                Ok(
                    PriceData {
                        price: reading.price,
                        confidence: reading.conf,
                        expo: reading.expo,
                        timestamp: reading.publish_time,
                        source,
                    },
                )
            }
        },
    }
}

/// The Pyth feed's reading, checked against the policy at time `now`.
pub fn get_pyth_price(ctx: &GetPythPrice, now: i64) -> (result: Result<PriceData, ErrorCode>)
    ensures
        result == checked_reading(ctx.oracle_config, ctx.price_feed, PriceSource::Pyth, now),
{
    get_feed_price(&ctx.oracle_config, ctx.price_feed, PriceSource::Pyth, now)
}

/// The Switchboard aggregator's reading, checked against the policy at time
/// `now`.
pub fn get_switchboard_price(ctx: &GetSwitchboardPrice, now: i64) -> (result: Result<
    PriceData,
    ErrorCode,
>)
    ensures
        result == checked_reading(
            ctx.oracle_config,
            ctx.aggregator,
            PriceSource::Switchboard,
            now,
        ),
{
    get_feed_price(&ctx.oracle_config, ctx.aggregator, PriceSource::Switchboard, now)
}

/// Validates a set of readings against the policy's deviation threshold and
/// returns their median. One outlier rejects the whole set.
pub fn validate_price_consensus(ctx: &ValidatePrice, prices: Vec<PriceData>) -> (result: Result<
    i64,
    ErrorCode,
>)
    ensures
        result == validated_median(prices@, ctx.oracle_config.max_deviation),
{
    if prices.len() == 0 {
        return Err(ErrorCode::NoPricesProvided);
    }
    let max_bps = ctx.oracle_config.max_deviation;
    let mut values: Vec<i64> = Vec::new();
    let mut i: usize = 0;
    while i < prices.len()
        invariant
            i <= prices.len(),
            values@ == reading_prices(prices@.take(i as int)),
        decreases prices.len() - i,
    {
        values.push(prices[i].price);
        assert(values@ =~= reading_prices(prices@.take(i + 1)));
        i += 1;
    }
    assert(prices@.take(i as int) =~= prices@);
    let m = median_of(&values);
    let mut k: usize = 0;
    while k < prices.len()
        invariant
            k <= prices.len(),
            m == median(reading_prices(prices@)),
            max_bps == ctx.oracle_config.max_deviation,
            forall|j: int|
                0 <= j < k ==> !exceeds_deviation(
                    (#[trigger] prices@[j]).price as int,
                    m as int,
                    max_bps as int,
                ),
        decreases prices.len() - k,
    {
        if is_beyond_deviation(prices[k].price, m, max_bps) {
            assert(exceeds_deviation(prices@[k as int].price as int, m as int, max_bps as int));
            return Err(ErrorCode::PriceDeviationTooHigh);
        }
        k += 1;
    }
    Ok(m)
}

/// A validated median is the median of the readings itself, which always
/// fits a price, and no reading deviates from it by more than the threshold.
pub proof fn lemma_validated_median_is_exact(prices: Seq<PriceData>, max_bps: u64)
    ensures
        validated_median(prices, max_bps) matches Ok(m) ==> m == median(reading_prices(prices))
            && forall|i: int|
            0 <= i < prices.len() ==> !exceeds_deviation(
                (#[trigger] prices[i]).price as int,
                m as int,
                max_bps as int,
            ),
{
    if prices.len() > 0 {
        lemma_median_within(reading_prices(prices), i64::MIN as int, i64::MAX as int);
    }
}

} // verus!
