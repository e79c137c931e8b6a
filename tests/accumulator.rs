use chrono::{TimeZone, Utc};
use sentry_usage_accountant::{UsageAccumulator, UsageKey, UsageUnit};
use std::collections::HashMap;

fn at(hour: u32, min: u32, sec: u32) -> i64 {
    Utc.with_ymd_and_hms(2023, 10, 8, hour, min, sec).unwrap().timestamp()
}

fn flushed(accumulator: &mut UsageAccumulator) -> HashMap<UsageKey, u64> {
    accumulator.flush().into_iter().collect()
}

#[test]
fn empty_batch() {
    let mut accumulator = UsageAccumulator::new(None);
    assert!(!accumulator.should_flush(at(22, 15, 25)));
    assert!(!accumulator.should_flush(at(22, 16, 25)));

    let message = accumulator.flush();
    assert_eq!(message.len(), 0);
}

#[test]
fn test_multiple_entries() {
    let mut accumulator = UsageAccumulator::new(None);
    accumulator.record(
        at(22, 15, 25),
        "genericmetrics_consumer",
        "transactions",
        100,
        UsageUnit::Milliseconds,
    );
    accumulator.record(
        at(22, 15, 45),
        "genericmetrics_consumer",
        "spans",
        200,
        UsageUnit::Milliseconds,
    );

    assert!(!accumulator.should_flush(at(22, 15, 25)));
    assert!(accumulator.should_flush(at(22, 16, 25)));
    let ret = flushed(&mut accumulator);
    let test_val = HashMap::from([
        (
            UsageKey {
                quantized_timestamp: at(22, 15, 0),
                resource_id: "genericmetrics_consumer".to_string(),
                app_feature: "transactions".to_string(),
                unit: UsageUnit::Milliseconds,
            },
            100,
        ),
        (
            UsageKey {
                quantized_timestamp: at(22, 15, 0),
                resource_id: "genericmetrics_consumer".to_string(),
                app_feature: "spans".to_string(),
                unit: UsageUnit::Milliseconds,
            },
            200,
        ),
    ]);
    assert_eq!(ret, test_val);

    let message = accumulator.flush();
    assert_eq!(message.len(), 0);
}

#[test]
fn test_merge_entries() {
    let mut accumulator = UsageAccumulator::new(None);
    accumulator.record(
        at(22, 15, 25),
        "genericmetrics_consumer",
        "transactions",
        100,
        UsageUnit::Milliseconds,
    );
    accumulator.record(
        at(22, 15, 45),
        "genericmetrics_consumer",
        "transactions",
        100,
        UsageUnit::Milliseconds,
    );
    accumulator.record(
        at(22, 16, 45),
        "genericmetrics_consumer",
        "transactions",
        100,
        UsageUnit::Milliseconds,
    );

    let ret = flushed(&mut accumulator);
    let test_val = HashMap::from([
        (
            UsageKey {
                quantized_timestamp: at(22, 15, 0),
                resource_id: "genericmetrics_consumer".to_string(),
                app_feature: "transactions".to_string(),
                unit: UsageUnit::Milliseconds,
            },
            200,
        ),
        (
            UsageKey {
                quantized_timestamp: at(22, 16, 0),
                resource_id: "genericmetrics_consumer".to_string(),
                app_feature: "transactions".to_string(),
                unit: UsageUnit::Milliseconds,
            },
            100,
        ),
    ]);
    assert_eq!(ret, test_val);

    let message = accumulator.flush();
    assert_eq!(message.len(), 0);
}

#[test]
fn quantization_truncates_to_minute() {
    let mut accumulator = UsageAccumulator::new(None);
    accumulator.record(at(22, 15, 25), "r", "f", 1, UsageUnit::Bytes);
    accumulator.record(at(22, 16, 45), "r", "f", 1, UsageUnit::Bytes);
    let batch = accumulator.flush();
    assert_eq!(batch.len(), 2);
    assert_eq!(batch[0].0.quantized_timestamp, at(22, 15, 0));
    assert_eq!(batch[1].0.quantized_timestamp, at(22, 16, 0));
}

#[test]
fn quantization_of_negative_time_rounds_down() {
    let mut accumulator = UsageAccumulator::new(Some(60));
    accumulator.record(-1, "r", "f", 1, UsageUnit::Bytes);
    accumulator.record(-60, "r", "f", 1, UsageUnit::Bytes);
    accumulator.record(-61, "r", "f", 1, UsageUnit::Bytes);
    let batch = accumulator.flush();
    assert_eq!(batch.len(), 2);
    assert_eq!(batch[0].0.quantized_timestamp, -60);
    assert_eq!(batch[0].1, 2);
    assert_eq!(batch[1].0.quantized_timestamp, -120);
}

#[test]
fn merge_of_two_records_in_one_bucket() {
    let mut accumulator = UsageAccumulator::new(None);
    accumulator.record(at(22, 15, 25), "r", "f", 100, UsageUnit::Bytes);
    accumulator.record(at(22, 15, 45), "r", "f", 100, UsageUnit::Bytes);
    let batch = accumulator.flush();
    assert_eq!(batch.len(), 1);
    assert_eq!(batch[0].0.quantized_timestamp, at(22, 15, 0));
    assert_eq!(batch[0].1, 200);
}

#[test]
fn bucket_separation_keeps_later_bucket_apart() {
    let mut accumulator = UsageAccumulator::new(None);
    accumulator.record(at(22, 15, 25), "r", "f", 100, UsageUnit::Bytes);
    accumulator.record(at(22, 15, 45), "r", "f", 100, UsageUnit::Bytes);
    accumulator.record(at(22, 16, 45), "r", "f", 100, UsageUnit::Bytes);
    let batch = accumulator.flush();
    assert_eq!(batch.len(), 2);
    assert_eq!(batch[0].1, 200);
    assert_eq!(batch[1].0.quantized_timestamp, at(22, 16, 0));
    assert_eq!(batch[1].1, 100);
}

#[test]
fn different_units_do_not_merge() {
    let mut accumulator = UsageAccumulator::new(None);
    accumulator.record(at(22, 15, 25), "r", "f", 1, UsageUnit::Bytes);
    accumulator.record(at(22, 15, 26), "r", "f", 1, UsageUnit::BytesPerSecond);
    accumulator.record(at(22, 15, 27), "other", "f", 1, UsageUnit::Bytes);
    assert_eq!(accumulator.flush().len(), 3);
}

#[test]
fn flush_threshold_is_strict() {
    let mut accumulator = UsageAccumulator::new(None);
    accumulator.record(at(22, 15, 25), "r", "f", 1, UsageUnit::Bytes);
    assert!(!accumulator.should_flush(at(22, 15, 25)));
    assert!(!accumulator.should_flush(at(22, 16, 0)));
    assert!(accumulator.should_flush(at(22, 16, 1)));
    assert!(accumulator.should_flush(at(22, 16, 25)));
}

#[test]
fn first_timestamp_is_kept_for_earlier_buckets() {
    let mut accumulator = UsageAccumulator::new(None);
    accumulator.record(at(22, 15, 25), "r", "f", 1, UsageUnit::Bytes);
    accumulator.record(at(22, 10, 25), "r", "f", 1, UsageUnit::Bytes);
    assert!(!accumulator.should_flush(at(22, 16, 0)));
    assert!(accumulator.should_flush(at(22, 16, 1)));
}

#[test]
fn flush_twice_drains_once() {
    let mut accumulator = UsageAccumulator::new(None);
    accumulator.record(at(22, 15, 25), "r", "f", 1, UsageUnit::Bytes);
    assert_eq!(accumulator.flush().len(), 1);
    assert!(accumulator.is_empty());
    assert_eq!(accumulator.flush().len(), 0);
    assert!(!accumulator.should_flush(at(23, 0, 0)));
}

#[test]
fn custom_granularity() {
    let mut accumulator = UsageAccumulator::new(Some(10));
    assert_eq!(accumulator.granularity(), 10);
    accumulator.record(at(22, 15, 25), "r", "f", 1, UsageUnit::Bytes);
    assert!(!accumulator.should_flush(at(22, 15, 30)));
    assert!(accumulator.should_flush(at(22, 15, 31)));
    let batch = accumulator.flush();
    assert_eq!(batch[0].0.quantized_timestamp, at(22, 15, 20));
}

#[test]
fn totals_stop_at_the_largest_amount() {
    let mut accumulator = UsageAccumulator::new(None);
    accumulator.record(0, "r", "f", u64::MAX - 1, UsageUnit::Bytes);
    accumulator.record(1, "r", "f", 5, UsageUnit::Bytes);
    let batch = accumulator.flush();
    assert_eq!(batch[0].1, u64::MAX);
}

#[test]
fn default_granularity_is_one_minute() {
    let accumulator = UsageAccumulator::new(None);
    assert_eq!(accumulator.granularity(), 60);
    assert!(accumulator.is_empty());
}
