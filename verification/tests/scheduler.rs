use oracle_system::oracle_manager::{
    collect_observations, OracleConfig, OracleManager, SchedulerAction, SchedulerEvent,
    SchedulerState, UpdateOutcome, UpdateReport, TICK_INTERVAL_MS,
};
use oracle_system::price_aggregator::{ConsensusError, ConsensusPrice, PriceAggregator};

const NOW: i64 = 1_700_000_000;

fn manager() -> OracleManager {
    OracleManager::new(PriceAggregator::new(100))
}

fn config(symbol: &str, tag: u8) -> OracleConfig {
    OracleConfig {
        symbol: symbol.to_string(),
        pyth_feed: [tag; 32],
        switchboard_feed: [tag + 1; 32],
    }
}

#[test]
fn collected_quotes_carry_their_source() {
    let prices = collect_observations(Some((100, 2, NOW)), Some((101, 3, NOW - 1)));
    assert_eq!(prices.len(), 2);
    assert_eq!(
        (prices[0].price, prices[0].confidence, prices[0].timestamp, prices[0].source.as_str()),
        (100, 2, NOW, "Pyth")
    );
    assert_eq!(
        (prices[1].price, prices[1].confidence, prices[1].timestamp, prices[1].source.as_str()),
        (101, 3, NOW - 1, "Switchboard")
    );
}

#[test]
fn failed_fetches_are_left_out_of_the_quotes() {
    assert!(collect_observations(None, None).is_empty());
    let only_switchboard = collect_observations(None, Some((101, 3, NOW)));
    assert_eq!(only_switchboard.len(), 1);
    assert_eq!(only_switchboard[0].source, "Switchboard");
    let only_pyth = collect_observations(Some((100, 2, NOW)), None);
    assert_eq!(only_pyth.len(), 1);
    assert_eq!(only_pyth[0].source, "Pyth");
}

#[test]
fn no_source_available_skips_the_symbol() {
    assert_eq!(
        manager().update_price_at(None, None, NOW),
        UpdateReport {
            pyth_failed: true,
            switchboard_failed: true,
            outcome: UpdateOutcome::NoSourcesAvailable,
        }
    );
    assert_eq!(manager().update_price(None, None).outcome, UpdateOutcome::NoSourcesAvailable);
}

#[test]
fn one_live_source_is_enough() {
    assert_eq!(
        manager().update_price_at(None, Some((250, 3, NOW - 2)), NOW),
        UpdateReport {
            pyth_failed: true,
            switchboard_failed: false,
            outcome: UpdateOutcome::Updated(ConsensusPrice {
                price: 250,
                confidence: 3,
                timestamp: NOW,
                sources_used: 1,
            }),
        }
    );
}

#[test]
fn two_agreeing_sources_are_averaged() {
    assert_eq!(
        manager().update_price_at(Some((1000, 3, NOW)), Some((1004, 8, NOW)), NOW),
        UpdateReport {
            pyth_failed: false,
            switchboard_failed: false,
            outcome: UpdateOutcome::Updated(ConsensusPrice {
                price: 1002,
                confidence: 8,
                timestamp: NOW,
                sources_used: 2,
            }),
        }
    );
}

#[test]
fn failed_consensus_is_reported_with_its_error() {
    assert_eq!(
        manager().update_price_at(Some((100, 1, NOW - 31)), None, NOW).outcome,
        UpdateOutcome::ConsensusFailed(ConsensusError::AllStale)
    );
    assert_eq!(
        manager().update_price_at(Some((100, 1, NOW)), Some((200, 1, NOW)), NOW).outcome,
        UpdateOutcome::ConsensusFailed(ConsensusError::NoConsensus)
    );
}

#[test]
fn update_price_reads_the_clock() {
    let before = chrono::Utc::now().timestamp();
    let report = manager().update_price(Some((100, 1, before)), None);
    let after = chrono::Utc::now().timestamp();
    assert!(!report.pyth_failed && report.switchboard_failed);
    match report.outcome {
        UpdateOutcome::Updated(price) => {
            assert_eq!((price.price, price.confidence, price.sources_used), (100, 1, 1));
            assert!(before <= price.timestamp && price.timestamp <= after);
        }
        other => panic!("expected an update, got {:?}", other),
    }
    assert_eq!(
        manager().update_price(Some((100, 1, before - 3600)), None).outcome,
        UpdateOutcome::ConsensusFailed(ConsensusError::AllStale)
    );
}

#[test]
fn new_manager_tracks_nothing() {
    assert!(manager().configs().is_empty());
}

#[test]
fn added_symbols_are_tracked_in_order() {
    let mut m = manager();
    m.add_config(config("SOL", 1));
    m.add_config(config("BTC", 3));
    m.add_config(config("ETH", 5));
    let symbols: Vec<&str> = m.configs().iter().map(|c| c.symbol.as_str()).collect();
    assert_eq!(symbols, vec!["SOL", "BTC", "ETH"]);
}

#[test]
fn adding_a_tracked_symbol_replaces_its_entry() {
    let mut m = manager();
    m.add_config(config("SOL", 1));
    m.add_config(config("BTC", 3));
    m.add_config(config("SOL", 9));
    let entries = m.configs();
    assert_eq!(entries.len(), 2);
    assert_eq!(entries[0].symbol, "SOL");
    assert_eq!(entries[0].pyth_feed, [9u8; 32]);
    assert_eq!(entries[0].switchboard_feed, [10u8; 32]);
    assert_eq!(entries[1].symbol, "BTC");
    assert_eq!(entries[1].pyth_feed, [3u8; 32]);
}

#[test]
fn a_tick_runs_through_every_state_and_ends_idle() {
    assert_eq!(TICK_INTERVAL_MS, 500);
    let state = SchedulerState::Idle;
    let (state, action) = state.on_event(SchedulerEvent::Tick);
    assert_eq!((state, action), (SchedulerState::Fetching, SchedulerAction::FetchSources));
    let (state, action) = state.on_event(SchedulerEvent::SourcesJoined);
    assert_eq!((state, action), (SchedulerState::Aggregating, SchedulerAction::Aggregate));
    let (state, action) = state.on_event(SchedulerEvent::Aggregated);
    assert_eq!((state, action), (SchedulerState::Persisting, SchedulerAction::Persist));
    let (state, action) = state.on_event(SchedulerEvent::Persisted);
    assert_eq!((state, action), (SchedulerState::Idle, SchedulerAction::Wait));
}

#[test]
fn a_tick_during_a_running_round_is_ignored() {
    let busy =
        [SchedulerState::Fetching, SchedulerState::Aggregating, SchedulerState::Persisting];
    for state in busy {
        assert_eq!(state.on_event(SchedulerEvent::Tick), (state, SchedulerAction::Wait));
    }
}

#[test]
fn an_event_that_the_state_does_not_wait_for_changes_nothing() {
    assert_eq!(
        SchedulerState::Idle.on_event(SchedulerEvent::Persisted),
        (SchedulerState::Idle, SchedulerAction::Wait)
    );
    assert_eq!(
        SchedulerState::Fetching.on_event(SchedulerEvent::Aggregated),
        (SchedulerState::Fetching, SchedulerAction::Wait)
    );
    assert_eq!(
        SchedulerState::Persisting.on_event(SchedulerEvent::SourcesJoined),
        (SchedulerState::Persisting, SchedulerAction::Wait)
    );
}
