use oracle_system::deviation::{
    abs_distance, abs_magnitude, is_beyond_confidence, is_beyond_deviation, is_within_deviation,
    scaled_ratio, BPS_PER_UNIT,
};
use oracle_system::median::{median_of, sort_values};
use oracle_system::price_aggregator::{
    ConsensusError, ConsensusPrice, PriceAggregator, SourcePrice, STALENESS_WINDOW_SECS,
};

const NOW: i64 = 1_700_000_000;

fn quote(price: i64, confidence: u64, timestamp: i64, source: &str) -> SourcePrice {
    SourcePrice { price, confidence, timestamp, source: source.to_string() }
}

fn fresh_quotes(prices: &[i64]) -> Vec<SourcePrice> {
    prices.iter().map(|p| quote(*p, 1, NOW, "feed")).collect()
}

#[test]
fn sort_values_orders_ascending_and_keeps_duplicates() {
    assert_eq!(
        sort_values(&vec![3, -1, 3, 0, i64::MIN, i64::MAX]),
        vec![i64::MIN, -1, 0, 3, 3, i64::MAX]
    );
    assert_eq!(sort_values(&vec![]), Vec::<i64>::new());
    assert_eq!(sort_values(&vec![7]), vec![7]);
}

#[test]
fn median_of_odd_count_is_middle_element() {
    assert_eq!(median_of(&vec![101, 99, 100]), 100);
    assert_eq!(median_of(&vec![5]), 5);
}

#[test]
fn median_of_even_count_is_mean_of_middle_pair_rounded_toward_zero() {
    assert_eq!(median_of(&vec![100, 101, 99, 1000]), 100);
    assert_eq!(median_of(&vec![100, 102]), 101);
    assert_eq!(median_of(&vec![-1, -2]), -1);
    assert_eq!(median_of(&vec![-1, 2]), 0);
}

#[test]
fn median_of_extreme_values_does_not_overflow() {
    assert_eq!(median_of(&vec![i64::MAX, i64::MAX]), i64::MAX);
    assert_eq!(median_of(&vec![i64::MIN, i64::MIN]), i64::MIN);
    assert_eq!(median_of(&vec![i64::MIN, i64::MAX]), 0);
}

#[test]
fn distance_and_magnitude_are_exact_at_the_extremes() {
    assert_eq!(abs_distance(i64::MIN, i64::MAX), u64::MAX as u128);
    assert_eq!(abs_distance(5, -7), 12);
    assert_eq!(abs_distance(-7, 5), 12);
    assert_eq!(abs_magnitude(i64::MIN), 1u128 << 63);
    assert_eq!(abs_magnitude(-3), 3);
    assert_eq!(abs_magnitude(3), 3);
}

#[test]
fn scaled_ratio_counts_whole_basis_points() {
    assert_eq!(BPS_PER_UNIT, 10000);
    assert_eq!(scaled_ratio(1, 100), 100);
    assert_eq!(scaled_ratio(15, 1005), 149);
    assert_eq!(scaled_ratio(0, 7), 0);
    assert_eq!(scaled_ratio(u64::MAX as u128, 1), u64::MAX as u128 * 10000);
}

#[test]
fn aggregator_threshold_is_inclusive() {
    assert!(is_within_deviation(101, 100, 100));
    assert!(is_within_deviation(99, 100, 100));
    assert!(!is_within_deviation(102, 100, 100));
    assert!(is_within_deviation(100, 100, 0));
    assert!(!is_within_deviation(101, 100, 99));
}

#[test]
fn aggregator_keeps_everything_against_a_negative_median_and_nothing_against_zero() {
    assert!(is_within_deviation(1_000_000, -5, 0));
    assert!(is_within_deviation(-5, -5, 0));
    assert!(!is_within_deviation(0, 0, u64::MAX));
    assert!(!is_within_deviation(7, 0, u64::MAX));
}

#[test]
fn validator_measures_against_the_magnitude_of_the_median() {
    assert!(!is_beyond_deviation(101, 100, 100));
    assert!(is_beyond_deviation(102, 100, 100));
    assert!(!is_beyond_deviation(-101, -100, 100));
    assert!(is_beyond_deviation(-102, -100, 100));
    assert!(is_beyond_deviation(0, 0, u64::MAX));
    assert!(is_beyond_deviation(5, 0, u64::MAX));
}

#[test]
fn confidence_is_measured_against_the_magnitude_of_the_price() {
    assert!(!is_beyond_confidence(1, 100, 100));
    assert!(is_beyond_confidence(2, 100, 100));
    assert!(!is_beyond_confidence(1, -100, 100));
    assert!(is_beyond_confidence(0, 0, u64::MAX));
    assert!(!is_beyond_confidence(u64::MAX, i64::MIN, u64::MAX));
}

#[test]
fn new_keeps_the_threshold() {
    assert_eq!(PriceAggregator::new(100).max_deviation_bps(), 100);
    assert_eq!(PriceAggregator::new(0).max_deviation_bps(), 0);
}

#[test]
fn empty_input_fails_with_empty_input() {
    let aggregator = PriceAggregator::new(100);
    assert_eq!(aggregator.calculate_consensus_at(vec![], NOW), Err(ConsensusError::EmptyInput));
    assert_eq!(aggregator.calculate_consensus(vec![]), Err(ConsensusError::EmptyInput));
}

#[test]
fn single_stale_quote_fails_with_all_stale() {
    let aggregator = PriceAggregator::new(100);
    let prices = vec![quote(100, 1, NOW - 31, "Pyth")];
    assert_eq!(aggregator.calculate_consensus_at(prices, NOW), Err(ConsensusError::AllStale));
}

#[test]
fn quote_aged_exactly_the_window_is_kept() {
    assert_eq!(STALENESS_WINDOW_SECS, 30);
    let aggregator = PriceAggregator::new(100);
    let prices = vec![quote(100, 4, NOW - 30, "Pyth")];
    assert_eq!(
        aggregator.calculate_consensus_at(prices, NOW),
        Ok(ConsensusPrice { price: 100, confidence: 4, timestamp: NOW, sources_used: 1 })
    );
}

#[test]
fn quote_from_the_future_is_fresh() {
    let aggregator = PriceAggregator::new(100);
    let prices = vec![quote(100, 4, i64::MAX, "Pyth")];
    assert_eq!(
        aggregator.calculate_consensus_at(prices, i64::MIN),
        Ok(ConsensusPrice { price: 100, confidence: 4, timestamp: i64::MIN, sources_used: 1 })
    );
}

#[test]
fn stale_quotes_do_not_shape_the_median() {
    let aggregator = PriceAggregator::new(100);
    let prices = vec![
        quote(100, 1, NOW, "a"),
        quote(5000, 1, NOW - 100, "b"),
        quote(5000, 1, NOW - 100, "c"),
        quote(100, 1, NOW - 5, "d"),
    ];
    assert_eq!(
        aggregator.calculate_consensus_at(prices, NOW),
        Ok(ConsensusPrice { price: 100, confidence: 1, timestamp: NOW, sources_used: 2 })
    );
}

#[test]
fn outlier_is_excluded_and_the_rest_averaged() {
    let aggregator = PriceAggregator::new(100);
    let result = aggregator.calculate_consensus_at(fresh_quotes(&[100, 101, 99, 1000]), NOW);
    assert_eq!(
        result,
        Ok(ConsensusPrice { price: 100, confidence: 1, timestamp: NOW, sources_used: 3 })
    );
}

#[test]
fn equal_prices_give_that_price_and_use_every_quote() {
    let aggregator = PriceAggregator::new(0);
    let result = aggregator.calculate_consensus_at(fresh_quotes(&[5000, 5000, 5000, 5000]), NOW);
    assert_eq!(
        result,
        Ok(ConsensusPrice { price: 5000, confidence: 1, timestamp: NOW, sources_used: 4 })
    );
    let result = aggregator.calculate_consensus_at(fresh_quotes(&[-7, -7]), NOW);
    assert_eq!(
        result,
        Ok(ConsensusPrice { price: -7, confidence: 1, timestamp: NOW, sources_used: 2 })
    );
}

#[test]
fn zero_median_gives_no_consensus() {
    let aggregator = PriceAggregator::new(u64::MAX);
    assert_eq!(
        aggregator.calculate_consensus_at(fresh_quotes(&[0, 0, 0]), NOW),
        Err(ConsensusError::NoConsensus)
    );
    assert_eq!(
        aggregator.calculate_consensus_at(fresh_quotes(&[-5, 5]), NOW),
        Err(ConsensusError::NoConsensus)
    );
}

#[test]
fn no_quote_near_the_median_gives_no_consensus() {
    let aggregator = PriceAggregator::new(100);
    assert_eq!(
        aggregator.calculate_consensus_at(fresh_quotes(&[100, 200]), NOW),
        Err(ConsensusError::NoConsensus)
    );
}

#[test]
fn negative_median_keeps_every_fresh_quote() {
    let aggregator = PriceAggregator::new(0);
    assert_eq!(
        aggregator.calculate_consensus_at(fresh_quotes(&[-100, -200, -300]), NOW),
        Ok(ConsensusPrice { price: -200, confidence: 1, timestamp: NOW, sources_used: 3 })
    );
}

#[test]
fn mean_is_rounded_toward_zero() {
    let aggregator = PriceAggregator::new(10000);
    assert_eq!(
        aggregator.calculate_consensus_at(fresh_quotes(&[1, 2]), NOW).map(|c| c.price),
        Ok(1)
    );
    assert_eq!(
        aggregator.calculate_consensus_at(fresh_quotes(&[-1, -2]), NOW).map(|c| c.price),
        Ok(-1)
    );
    assert_eq!(
        aggregator.calculate_consensus_at(fresh_quotes(&[10, 11, 11]), NOW).map(|c| c.price),
        Ok(10)
    );
}

#[test]
fn confidence_is_the_widest_among_the_retained() {
    let aggregator = PriceAggregator::new(100);
    let prices = vec![
        quote(100, 5, NOW, "a"),
        quote(100, 9, NOW, "b"),
        quote(100, 7, NOW, "c"),
        quote(900, 5000, NOW, "outlier"),
        quote(100, 8000, NOW - 60, "stale"),
    ];
    assert_eq!(
        aggregator.calculate_consensus_at(prices, NOW),
        Ok(ConsensusPrice { price: 100, confidence: 9, timestamp: NOW, sources_used: 3 })
    );
}

#[test]
fn extreme_prices_do_not_overflow() {
    let aggregator = PriceAggregator::new(0);
    assert_eq!(
        aggregator
            .calculate_consensus_at(fresh_quotes(&[i64::MAX, i64::MAX, i64::MAX]), NOW)
            .map(|c| (c.price, c.sources_used)),
        Ok((i64::MAX, 3))
    );
    assert_eq!(
        aggregator
            .calculate_consensus_at(fresh_quotes(&[i64::MIN, i64::MIN]), NOW)
            .map(|c| (c.price, c.sources_used)),
        Ok((i64::MIN, 2))
    );
}

#[test]
fn same_quotes_give_the_same_outcome_twice_and_in_any_order() {
    let aggregator = PriceAggregator::new(100);
    let first = aggregator.calculate_consensus_at(fresh_quotes(&[100, 101, 99, 1000]), NOW);
    let second = aggregator.calculate_consensus_at(fresh_quotes(&[100, 101, 99, 1000]), NOW);
    let shuffled = aggregator.calculate_consensus_at(fresh_quotes(&[1000, 99, 100, 101]), NOW);
    assert_eq!(first, second);
    assert_eq!(first, shuffled);
}

#[test]
fn a_result_always_rests_on_at_least_one_source() {
    let aggregator = PriceAggregator::new(50);
    let inputs: Vec<Vec<i64>> = vec![
        vec![1],
        vec![100, 100],
        vec![100, 200],
        vec![100, 101, 5000],
        vec![0],
        vec![-3, -4, -5, 10],
    ];
    for input in inputs {
        let n = input.len();
        match aggregator.calculate_consensus_at(fresh_quotes(&input), NOW) {
            Ok(c) => assert!(1 <= c.sources_used && c.sources_used <= n),
            Err(e) => assert!(matches!(e, ConsensusError::NoConsensus)),
        }
    }
}

#[test]
fn calculate_consensus_reads_the_clock() {
    let aggregator = PriceAggregator::new(100);
    let before = chrono::Utc::now().timestamp();
    let result = aggregator.calculate_consensus(vec![quote(100, 2, before, "Pyth")]);
    let after = chrono::Utc::now().timestamp();
    let price = result.expect("a quote stamped now is fresh");
    assert_eq!((price.price, price.confidence, price.sources_used), (100, 2, 1));
    assert!(before <= price.timestamp && price.timestamp <= after);

    let old = vec![quote(100, 2, before - 3600, "Pyth")];
    assert_eq!(aggregator.calculate_consensus(old), Err(ConsensusError::AllStale));
}

#[test]
fn consensus_errors_have_their_messages() {
    assert_eq!(ConsensusError::EmptyInput.message(), "No prices to aggregate");
    assert_eq!(ConsensusError::AllStale.message(), "All prices are stale");
    assert_eq!(ConsensusError::NoConsensus.message(), "No prices within deviation threshold");
}
