//! Price consensus for an oracle service.
//!
//! Several independent feeds quote a price for the same asset. The off-chain
//! aggregator drops stale and outlying quotes and averages the rest; the
//! on-chain validator accepts a set of quotes only when every one of them
//! agrees with their median. Prices and confidence bounds are integers counted
//! in one fixed unit, the smallest price increment in use.

pub mod clock;
pub mod database;
pub mod deviation;
pub mod median;
pub mod oracle_contract;
pub mod oracle_manager;
pub mod parity;
pub mod price_aggregator;
pub mod rearrange;
