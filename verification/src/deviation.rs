//! Relative distance between a quoted price and a reference price, in basis
//! points, and the two threshold tests built on it.
//!
//! The aggregator and the validator measure the same distance but treat the
//! reference differently, and each keeps its own rule here: the aggregator
//! divides by the median as it stands, the validator by its magnitude.

use vstd::prelude::*;

verus! {

/// Basis points in one whole: 10000 bps = 100%.
pub const BPS_PER_UNIT: u64 = 10000;

/// The absolute difference of two prices.
pub open spec fn distance(a: int, b: int) -> int {
    if a >= b {
        a - b
    } else {
        b - a
    }
}

/// The magnitude of a price.
pub open spec fn magnitude(x: int) -> int {
    if x >= 0 {
        x
    } else {
        -x
    }
}

/// Whole basis points by which `amount` stands to a positive `base`:
/// `amount / base * 10000`, rounded down.
pub open spec fn bps_of(amount: int, base: int) -> int
    recommends
        amount >= 0,
        base > 0,
{
    amount * BPS_PER_UNIT / base
}

/// The aggregator's test: does `price` lie within `max_bps` of `median`?
///
/// The deviation is `|price - median| / median * 10000`. Against a positive
/// median it is compared with the threshold. A negative median makes the
/// ratio zero or negative, which no threshold excludes. A zero median gives
/// no ratio, and no price is within it.
pub open spec fn within_deviation(price: int, median: int, max_bps: int) -> bool {
    if median > 0 {
        bps_of(distance(price, median), median) <= max_bps
    } else {
        median < 0
    }
}

/// The validator's test: does `price` deviate from `median` by more than
/// `max_bps`?
///
/// The deviation is `|price - median| / |median| * 10000`. A zero median
/// gives no ratio; the deviation then counts as exceeding every threshold.
pub open spec fn exceeds_deviation(price: int, median: int, max_bps: int) -> bool {
    median == 0 || bps_of(distance(price, median), magnitude(median)) > max_bps
}

/// The validator's test on a feed's own error bound: is `confidence` more
/// than `max_bps` of `|price|`?
///
/// A zero price gives no ratio; the bound then counts as exceeding every
/// threshold.
pub open spec fn exceeds_confidence(confidence: int, price: int, max_bps: int) -> bool {
    price == 0 || bps_of(confidence, magnitude(price)) > max_bps
}

/// `|a - b|`, which always fits in 128 bits.
pub fn abs_distance(a: i64, b: i64) -> (d: u128)
    ensures
        d == distance(a as int, b as int),
        d <= u64::MAX,
{
    if a >= b {
        (a as i128 - b as i128) as u128
    } else {
        (b as i128 - a as i128) as u128
    }
}

/// `|x|`, which always fits in 128 bits.
pub fn abs_magnitude(x: i64) -> (m: u128)
    ensures
        m == magnitude(x as int),
        m <= 0x8000_0000_0000_0000,
{
    if x >= 0 {
        x as u128
    } else {
        (-(x as i128)) as u128
    }
}

/// Computes [`bps_of`] in 128-bit arithmetic.
pub fn scaled_ratio(amount: u128, base: u128) -> (bps: u128)
    requires
        amount <= u64::MAX,
        base > 0,
    ensures
        bps == bps_of(amount as int, base as int),
{
    assert(amount * BPS_PER_UNIT <= u64::MAX * 10000) by (nonlinear_arith)
        requires
            amount <= u64::MAX,
            BPS_PER_UNIT == 10000,
    ;
    amount * (BPS_PER_UNIT as u128) / base
}

/// Decides [`within_deviation`].
pub fn is_within_deviation(price: i64, median: i64, max_bps: u64) -> (within: bool)
    ensures
        within == within_deviation(price as int, median as int, max_bps as int),
{
    if median > 0 {
        scaled_ratio(abs_distance(price, median), median as u128) <= max_bps as u128
    } else {
        median < 0
    }
}

/// Decides [`exceeds_deviation`].
pub fn is_beyond_deviation(price: i64, median: i64, max_bps: u64) -> (beyond: bool)
    ensures
        beyond == exceeds_deviation(price as int, median as int, max_bps as int),
{
    if median == 0 {
        true
    } else {
        scaled_ratio(abs_distance(price, median), abs_magnitude(median)) > max_bps as u128
    }
}

/// Decides [`exceeds_confidence`].
pub fn is_beyond_confidence(confidence: u64, price: i64, max_bps: u64) -> (beyond: bool)
    ensures
        beyond == exceeds_confidence(confidence as int, price as int, max_bps as int),
{
    if price == 0 {
        true
    } else {
        scaled_ratio(confidence as u128, abs_magnitude(price)) > max_bps as u128
    }
}

} // verus!
