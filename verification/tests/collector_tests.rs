use quanthelm::binance::stream::StreamLifecycle;
use quanthelm::collector::{plan_ingest, restores_continuity, CollectorMetrics, IngestOutcome, IngestPlan};
use quanthelm::market_data::Continuity;
use quanthelm::time::Timestamp;
use uuid::Uuid;

fn at(ms: i64) -> Timestamp {
    Timestamp::from_millis(ms).expect("valid timestamp")
}

#[test]
fn metrics_count_recovery_and_lifecycle() {
    let mut metrics = CollectorMetrics::new(Uuid::nil().as_u128());
    metrics.observe_lifecycle(&StreamLifecycle::Connecting);
    metrics.observe_lifecycle(&StreamLifecycle::Connected);
    metrics.observe_ingest(IngestOutcome::Recovered { candles: 2 });
    metrics.observe_ingest(IngestOutcome::Duplicate);

    assert_eq!(metrics.connecting, 1);
    assert_eq!(metrics.connected, 1);
    assert_eq!(metrics.gaps_detected, 1);
    assert_eq!(metrics.recovered_klines, 2);
    assert_eq!(metrics.closed_klines, 3);
    assert_eq!(metrics.duplicates_ignored, 1);
}

#[test]
fn fresh_metrics_are_zero_and_unstamped() {
    let id = Uuid::new_v4().as_u128();
    let metrics = CollectorMetrics::new(id);
    assert_eq!(metrics.collector_instance_id, id);
    assert_eq!(metrics.raw_events, 0);
    assert_eq!(metrics.closed_klines, 0);
    assert!(metrics.completed_at.is_none());
    assert!(metrics.last_event_at.is_none());
}

#[test]
fn every_event_kind_has_its_counter() {
    let mut metrics = CollectorMetrics::new(7);
    metrics.observe_lifecycle(&StreamLifecycle::Rotating);
    metrics.observe_lifecycle(&StreamLifecycle::Disconnected { reason: "stream ended".to_owned() });
    metrics.observe_ingest(IngestOutcome::Accepted);
    metrics.observe_ingest(IngestOutcome::OutOfOrder);
    metrics.observe_raw_event();
    metrics.observe_protocol_error();
    assert_eq!(metrics.rotating, 1);
    assert_eq!(metrics.disconnected, 1);
    assert_eq!(metrics.connecting, 0);
    assert_eq!(metrics.closed_klines, 1);
    assert_eq!(metrics.out_of_order_ignored, 1);
    assert_eq!(metrics.raw_events, 1);
    assert_eq!(metrics.protocol_errors, 1);
    assert_eq!(metrics.gaps_detected, 0);
    assert!(metrics.last_event_at.is_some());
    assert!(metrics.completed_at.is_none());
    metrics.complete();
    assert!(metrics.completed_at.is_some());
}

#[test]
fn continuity_decides_what_is_stored() {
    assert_eq!(plan_ingest(&Continuity::First), IngestPlan::Store);
    assert_eq!(plan_ingest(&Continuity::Continuous), IngestPlan::Store);
    assert_eq!(plan_ingest(&Continuity::Duplicate), IngestPlan::IgnoreDuplicate);
    assert_eq!(
        plan_ingest(&Continuity::OutOfOrder { latest_open_time: at(10), actual_open_time: at(5) }),
        IngestPlan::IgnoreOutOfOrder
    );
    let gap = Continuity::Gap {
        expected_open_time: at(900_000),
        actual_open_time: at(2_700_000),
        missing_candles: 2,
    };
    let plan = plan_ingest(&gap);
    assert_eq!(
        plan,
        IngestPlan::Backfill {
            expected_open_time: at(900_000),
            actual_open_time: at(2_700_000),
            missing_candles: 2,
        }
    );
    assert_eq!(plan.outcome(), IngestOutcome::Recovered { candles: 2 });
    assert_eq!(IngestPlan::Store.outcome(), IngestOutcome::Accepted);
    assert_eq!(IngestPlan::IgnoreDuplicate.outcome(), IngestOutcome::Duplicate);
    assert_eq!(IngestPlan::IgnoreOutOfOrder.outcome(), IngestOutcome::OutOfOrder);
}

#[test]
fn recovery_requires_exact_continuity() {
    assert!(restores_continuity(&Continuity::First));
    assert!(restores_continuity(&Continuity::Continuous));
    assert!(!restores_continuity(&Continuity::Duplicate));
    assert!(!restores_continuity(&Continuity::Gap {
        expected_open_time: at(0),
        actual_open_time: at(1),
        missing_candles: 0,
    }));
}
