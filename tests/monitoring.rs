use ecash_sdk_core::fee::parse_fee_units;
use ecash_sdk_core::monitoring::{Metrics, MetricsSnapshot};

fn units(fee: &str) -> u128 {
    parse_fee_units(fee).unwrap()
}

fn whole(units: u128) -> f64 {
    units as f64 / 1e18
}

fn rate(s: &MetricsSnapshot) -> f64 {
    s.success_rate_ppm as f64 / 1e6
}

#[test]
fn test_metrics_new() {
    let metrics = Metrics::new();
    let stats = metrics.get_stats();
    assert_eq!(stats.total_transactions, 0);
    assert_eq!(stats.successful_transactions, 0);
    assert_eq!(stats.failed_transactions, 0);
}

#[test]
fn test_metrics_record_success() {
    let mut metrics = Metrics::new();
    metrics.record_transaction(true, units("0.05"), 100);
    let stats = metrics.get_stats();
    assert_eq!(stats.total_transactions, 1);
    assert_eq!(stats.successful_transactions, 1);
    assert_eq!(stats.failed_transactions, 0);
    assert_eq!(whole(stats.total_fee_units), 0.05);
    assert_eq!(rate(&stats), 1.0);
}

#[test]
fn test_metrics_record_failure() {
    let mut metrics = Metrics::new();
    metrics.record_transaction(false, 0, 50);
    let stats = metrics.get_stats();
    assert_eq!(stats.total_transactions, 1);
    assert_eq!(stats.successful_transactions, 0);
    assert_eq!(stats.failed_transactions, 1);
    assert_eq!(rate(&stats), 0.0);
}

#[test]
fn test_metrics_multiple_transactions() {
    let mut metrics = Metrics::new();
    metrics.record_transaction(true, units("0.05"), 100);
    metrics.record_transaction(true, units("0.03"), 80);
    metrics.record_transaction(false, 0, 50);

    let stats = metrics.get_stats();
    assert_eq!(stats.total_transactions, 3);
    assert_eq!(stats.successful_transactions, 2);
    assert_eq!(stats.failed_transactions, 1);
    assert_eq!(whole(stats.total_fee_units), 0.08);
    assert!((rate(&stats) - 2.0 / 3.0).abs() < 0.001);
}

#[test]
fn test_metrics_reset() {
    let mut metrics = Metrics::new();
    metrics.record_transaction(true, units("0.05"), 100);
    metrics.reset();
    let stats = metrics.get_stats();
    assert_eq!(stats.total_transactions, 0);
    assert_eq!(stats.successful_transactions, 0);
}

#[test]
fn test_metrics_average_latency() {
    let mut metrics = Metrics::new();
    metrics.record_transaction(true, units("0.05"), 100);
    metrics.record_transaction(true, units("0.03"), 200);
    let stats = metrics.get_stats();
    assert_eq!(stats.average_latency_ms, 150);
}

#[test]
fn metrics_aggregate_success_and_failure() {
    let mut metrics = Metrics::new();
    metrics.record_transaction(true, units("0.05"), 100);
    metrics.record_transaction(false, 0, 50);
    let stats = metrics.get_stats();
    assert_eq!(stats.total_transactions, 2);
    assert_eq!(stats.successful_transactions, 1);
    assert_eq!(stats.failed_transactions, 1);
    assert_eq!(stats.total_fee_units, 50_000_000_000_000_000);
    assert_eq!(stats.average_latency_ms, 75);
    assert_eq!(stats.success_rate_ppm, 500_000);
}

#[test]
fn failure_fee_is_not_counted() {
    let mut metrics = Metrics::new();
    metrics.record_transaction(false, units("3"), 10);
    let stats = metrics.get_stats();
    assert_eq!(stats.total_fee_units, 0);
    assert_eq!(stats.total_latency_ms, 10);
    assert_eq!(stats.average_latency_ms, 10);
}

#[test]
fn fee_sum_stops_at_its_largest_value() {
    let mut metrics = Metrics::new();
    metrics.record_transaction(true, u128::MAX - 1, 0);
    metrics.record_transaction(true, 5, 0);
    assert_eq!(metrics.get_stats().total_fee_units, u128::MAX);
}
