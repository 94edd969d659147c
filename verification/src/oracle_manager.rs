//! The update scheduler's bookkeeping and decisions: which symbols are
//! tracked, how a tick proceeds, and what to do with what the sources
//! returned for a symbol.
//!
//! Fetching from the sources and writing to the cache and the history are
//! the caller's part. The caller hands in what each source returned and
//! carries out what the report says.

use vstd::prelude::*;
use crate::clock::unix_now;
use crate::price_aggregator::{
    consensus, observations, ConsensusError, ConsensusPrice, Observation, PriceAggregator,
    SourcePrice,
};

verus! {

/// Time between two ticks of the scheduler, in milliseconds.
pub const TICK_INTERVAL_MS: u64 = 500;

/// The address of a provider's feed account.
pub type FeedId = [u8; 32];

/// A tracked symbol with its feed at each provider.
#[derive(Debug, Clone)]
pub struct OracleConfig {
    pub symbol: String,
    pub pyth_feed: FeedId,
    pub switchboard_feed: FeedId,
}

/// What a fetch from one source returned: price, confidence and timestamp,
/// or `None` where the fetch failed.
pub type Fetched = Option<(i64, u64, i64)>;

/// What became of a symbol in one tick.
#[derive(Debug, Clone, Copy, PartialEq, Eq, Structural)]
pub enum UpdateOutcome {
    /// No source returned a quote: nothing is written.
    NoSourcesAvailable,
    /// The quotes gave no consensus: nothing is written.
    ConsensusFailed(ConsensusError),
    /// The quotes gave this price: it goes to the cache and to the history.
    Updated(ConsensusPrice),
}

/// The sources that failed in one tick, and what became of the symbol.
#[derive(Debug, Clone, Copy, PartialEq, Eq, Structural)]
pub struct UpdateReport {
    pub pyth_failed: bool,
    pub switchboard_failed: bool,
    pub outcome: UpdateOutcome,
}

/// The quote that a fetch returned, under its source's name; nothing where
/// the fetch failed.
pub open spec fn tagged(fetched: Fetched, source: Seq<char>) -> Seq<Observation> {
    match fetched {
        Some((price, confidence, timestamp)) => seq![
            Observation { price, confidence, timestamp, source },
        ],
        None => Seq::empty(),
    }
}

/// The quotes of one tick: Pyth's first, then Switchboard's, each where its
/// fetch succeeded.
pub open spec fn collected(pyth: Fetched, switchboard: Fetched) -> Seq<Observation> {
    tagged(pyth, "Pyth"@) + tagged(switchboard, "Switchboard"@)
}

/// What a tick does for one symbol, given what its sources returned.
pub open spec fn planned_update(pyth: Fetched, switchboard: Fetched, max_bps: u64, now: i64)
    -> UpdateReport {
    UpdateReport {
        pyth_failed: pyth is None,
        switchboard_failed: switchboard is None,
        outcome: if pyth is None && switchboard is None {
            UpdateOutcome::NoSourcesAvailable
        } else {
            match consensus(collected(pyth, switchboard), max_bps, now) {
                Ok(price) => UpdateOutcome::Updated(price),
                Err(error) => UpdateOutcome::ConsensusFailed(error),
            }
        },
    }
}

/// No two entries track the same symbol.
pub open spec fn distinct_symbols(entries: Seq<OracleConfig>) -> bool {
    forall|i: int, j: int|
        0 <= i < j < entries.len() ==> (#[trigger] entries[i]).symbol@ != (
        #[trigger] entries[j]).symbol@
}

/// Is `symbol` tracked by one of the entries?
pub open spec fn tracks(entries: Seq<OracleConfig>, symbol: Seq<char>) -> bool {
    exists|i: int| 0 <= i < entries.len() && (#[trigger] entries[i]).symbol@ == symbol
}

/// The entries after `config` is added: it takes the place of the entry
/// that tracks its symbol, or goes last where none does.
pub open spec fn with_config(entries: Seq<OracleConfig>, config: OracleConfig) -> Seq<
    OracleConfig,
> {
    if tracks(entries, config.symbol@) {
        let i = choose|i: int|
            0 <= i < entries.len() && (#[trigger] entries[i]).symbol@ == config.symbol@;
        entries.update(i, config)
    } else {
        entries.push(config)
    }
}

/// Turns what the sources returned into the list of quotes to aggregate.
pub fn collect_observations(pyth: Fetched, switchboard: Fetched) -> (prices: Vec<SourcePrice>)
    ensures
        observations(prices@) == collected(pyth, switchboard),
{
    let mut prices: Vec<SourcePrice> = Vec::new();
    if let Some((price, confidence, timestamp)) = pyth {
        prices.push(SourcePrice { price, confidence, timestamp, source: "Pyth".to_owned() });
    }
    if let Some((price, confidence, timestamp)) = switchboard {
        prices.push(
            SourcePrice { price, confidence, timestamp, source: "Switchboard".to_owned() },
        );
    }
    assert(observations(prices@) =~= collected(pyth, switchboard));
    prices
}

/// The tracked symbols and the aggregator that their quotes go through.
pub struct OracleManager {
    aggregator: PriceAggregator,
    configs: Vec<OracleConfig>,
}

impl OracleManager {
    #[verifier::type_invariant]
    spec fn tracks_each_symbol_once(&self) -> bool {
        distinct_symbols(self.configs@)
    }

    /// The tracked symbols' entries, in the order in which their symbols
    /// were first added.
    pub closed spec fn entries(&self) -> Seq<OracleConfig> {
        self.configs@
    }

    /// The aggregator's deviation threshold, in basis points.
    pub closed spec fn max_deviation(&self) -> u64 {
        self.aggregator.max_deviation()
    }

    /// A manager that tracks no symbol yet.
    pub fn new(aggregator: PriceAggregator) -> (manager: Self)
        ensures
            manager.entries() == Seq::<OracleConfig>::empty(),
            manager.max_deviation() == aggregator.max_deviation(),
    {
        OracleManager { aggregator, configs: Vec::new() }
    }

    /// Tracks `config.symbol` with the feeds of `config`, replacing the
    /// entry of that symbol if there is one.
    pub fn add_config(&mut self, config: OracleConfig)
        ensures
            final(self).entries() == with_config(old(self).entries(), config),
            final(self).max_deviation() == old(self).max_deviation(),
            distinct_symbols(final(self).entries()),
    {
        proof {
            use_type_invariant(&*self);
        }
        let mut i: usize = 0;
        while i < self.configs.len()
            invariant
                i <= self.configs.len(),
                *self == *old(self),
                distinct_symbols(self.configs@),
                forall|j: int|
                    0 <= j < i ==> (#[trigger] self.configs@[j]).symbol@ != config.symbol@,
            decreases self.configs.len() - i,
        {
            if self.configs[i].symbol == config.symbol {
                proof {
                    let entries = self.configs@;
                    assert(entries[i as int].symbol@ == config.symbol@);
                    assert(tracks(entries, config.symbol@));
                    let found = choose|j: int|
                        0 <= j < entries.len() && (#[trigger] entries[j]).symbol@
                            == config.symbol@;
                    assert(found == i) by {
                        if found < i {
                            assert(entries[found].symbol@ != entries[i as int].symbol@);
                        } else if i < found {
                            assert(entries[i as int].symbol@ != entries[found].symbol@);
                        }
                    }
                }
                // The list is taken out while it changes: the manager holds a
                // valid list at every step.
                let mut entries: Vec<OracleConfig> = Vec::new();
                core::mem::swap(&mut self.configs, &mut entries);
                entries.set(i, config);
                self.configs = entries;
                return ;
            }
            i += 1;
        }
        assert(!tracks(self.configs@, config.symbol@));
        let mut entries: Vec<OracleConfig> = Vec::new();
        core::mem::swap(&mut self.configs, &mut entries);
        entries.push(config);
        self.configs = entries;
    }

    /// The tracked symbols' entries; no symbol occurs twice among them.
    pub fn configs(&self) -> (entries: &Vec<OracleConfig>)
        ensures
            entries@ == self.entries(),
            distinct_symbols(entries@),
    {
        proof {
            use_type_invariant(self);
        }
        &self.configs
    }

    /// Decides what a tick does for one symbol, as of the system clock's
    /// current time.
    ///
    /// The clock is read once; the report is the one planned for whatever
    /// time it returned.
    pub fn update_price(&self, pyth: Fetched, switchboard: Fetched) -> (report: UpdateReport)
        ensures
            exists|now: i64| report == planned_update(pyth, switchboard, self.max_deviation(), now),
            report.pyth_failed == (pyth is None),
            report.switchboard_failed == (switchboard is None),
            report.outcome == UpdateOutcome::NoSourcesAvailable <==> pyth is None && switchboard
                is None,
    {
        let now = unix_now();
        self.update_price_at(pyth, switchboard, now)
    }

    /// Decides what a tick does for one symbol, as of time `now`.
    pub fn update_price_at(&self, pyth: Fetched, switchboard: Fetched, now: i64) -> (report:
        UpdateReport)
        ensures
            report == planned_update(pyth, switchboard, self.max_deviation(), now),
    {
        let prices = collect_observations(pyth, switchboard);
        let outcome = if prices.len() == 0 {
            UpdateOutcome::NoSourcesAvailable
        } else {
            match self.aggregator.calculate_consensus_at(prices, now) {
                Ok(price) => UpdateOutcome::Updated(price),
                Err(error) => UpdateOutcome::ConsensusFailed(error),
            }
        };
        UpdateReport {
            pyth_failed: pyth.is_none(),
            switchboard_failed: switchboard.is_none(),
            outcome,
        }
    }
}

/// Where the scheduler stands within a tick.
#[derive(Debug, Clone, Copy, PartialEq, Eq, Structural)]
pub enum SchedulerState {
    /// Waiting for the timer.
    Idle,
    /// Fetches from the sources are under way.
    Fetching,
    /// The quotes are in and are being aggregated.
    Aggregating,
    /// The accepted prices are being written.
    Persisting,
}

/// What happened outside the scheduler.
#[derive(Debug, Clone, Copy, PartialEq, Eq, Structural)]
pub enum SchedulerEvent {
    /// The timer fired.
    Tick,
    /// Every fetch has returned or failed.
    SourcesJoined,
    /// Every symbol's quotes have been aggregated.
    Aggregated,
    /// The writes are done, whether or not they succeeded.
    Persisted,
}

/// What the caller is to do next.
#[derive(Debug, Clone, Copy, PartialEq, Eq, Structural)]
pub enum SchedulerAction {
    /// Nothing: wait for the next event.
    Wait,
    /// Fetch from every source of every tracked symbol.
    FetchSources,
    /// Hand each symbol's quotes to `update_price`.
    Aggregate,
    /// Write each accepted price to the cache and to the history.
    Persist,
}

/// The state after `event` arrives in `state`. An event that the state does
/// not wait for changes nothing; so a tick that arrives while the last one
/// is still running starts no second round.
pub open spec fn state_after(state: SchedulerState, event: SchedulerEvent) -> SchedulerState {
    match (state, event) {
        (SchedulerState::Idle, SchedulerEvent::Tick) => SchedulerState::Fetching,
        (SchedulerState::Fetching, SchedulerEvent::SourcesJoined) => SchedulerState::Aggregating,
        (SchedulerState::Aggregating, SchedulerEvent::Aggregated) => SchedulerState::Persisting,
        (SchedulerState::Persisting, SchedulerEvent::Persisted) => SchedulerState::Idle,
        _ => state,
    }
}

/// The action that `event` calls for when it arrives in `state`.
pub open spec fn action_on(state: SchedulerState, event: SchedulerEvent) -> SchedulerAction {
    match (state, event) {
        (SchedulerState::Idle, SchedulerEvent::Tick) => SchedulerAction::FetchSources,
        (SchedulerState::Fetching, SchedulerEvent::SourcesJoined) => SchedulerAction::Aggregate,
        (SchedulerState::Aggregating, SchedulerEvent::Aggregated) => SchedulerAction::Persist,
        _ => SchedulerAction::Wait,
    }
}

impl SchedulerState {
    /// Takes one step of the scheduler: the next state, and what to do.
    pub fn on_event(self, event: SchedulerEvent) -> (step: (SchedulerState, SchedulerAction))
        ensures
            step.0 == state_after(self, event),
            step.1 == action_on(self, event),
    {
        match (self, event) {
            (SchedulerState::Idle, SchedulerEvent::Tick) => (
                SchedulerState::Fetching,
                SchedulerAction::FetchSources,
            ),
            (SchedulerState::Fetching, SchedulerEvent::SourcesJoined) => (
                SchedulerState::Aggregating,
                SchedulerAction::Aggregate,
            ),
            (SchedulerState::Aggregating, SchedulerEvent::Aggregated) => (
                SchedulerState::Persisting,
                SchedulerAction::Persist,
            ),
            (SchedulerState::Persisting, SchedulerEvent::Persisted) => (
                SchedulerState::Idle,
                SchedulerAction::Wait,
            ),
            _ => (self, SchedulerAction::Wait),
        }
    }
}

/// A tick runs through fetching, aggregating and persisting and ends idle
/// again; a timer that fires in between is ignored, so ticks never overlap.
pub proof fn lemma_ticks_do_not_overlap(state: SchedulerState)
    ensures
        state_after(
            state_after(
                state_after(
                    state_after(SchedulerState::Idle, SchedulerEvent::Tick),
                    SchedulerEvent::SourcesJoined,
                ),
                SchedulerEvent::Aggregated,
            ),
            SchedulerEvent::Persisted,
        ) == SchedulerState::Idle,
        state != SchedulerState::Idle ==> state_after(state, SchedulerEvent::Tick) == state
            && action_on(state, SchedulerEvent::Tick) == SchedulerAction::Wait,
{
}

} // verus!
