use ticketing::sync::client::SyncOutcome;
use ticketing::sync::worker::{
    backoff_ceiling, backoff_secs, backoff_with_jitter, settle, settle_with_delay, QueueRow,
    QueueUpdate,
};

fn row(attempts: i64) -> QueueRow {
    QueueRow {
        id: 7,
        idempotency_key: "k-1".into(),
        entity_type: "ticket".into(),
        entity_id: "uuid-1".into(),
        operation: "insert".into(),
        payload: "{}".into(),
        tenant_id: "tenant-a".into(),
        device_id: "device-b".into(),
        attempts,
    }
}

#[test]
fn backoff_increases_and_is_capped() {
    // Monotonic-ish growth and never exceeds the 300s cap region.
    let a1 = backoff_secs(1);
    let a8 = backoff_secs(8);
    assert!(a1 >= 1);
    assert!(a8 <= 300);
    assert!(a8 >= a1, "later attempts should back off at least as long");
}

#[test]
fn backoff_never_zero() {
    for attempts in 1..=12 {
        assert!(backoff_secs(attempts) >= 1, "delay must always advance the clock");
    }
}

#[test]
fn backoff_ceiling_doubles_then_stops() {
    assert_eq!(backoff_ceiling(-5), 2);
    assert_eq!(backoff_ceiling(0), 2);
    assert_eq!(backoff_ceiling(1), 2);
    assert_eq!(backoff_ceiling(2), 4);
    assert_eq!(backoff_ceiling(5), 32);
    assert_eq!(backoff_ceiling(8), 256);
    assert_eq!(backoff_ceiling(40), 256);
}

#[test]
fn backoff_with_given_jitter() {
    assert_eq!(backoff_with_jitter(1, 0), 1);
    assert_eq!(backoff_with_jitter(1, 2), 2);
    assert_eq!(backoff_with_jitter(3, 5), 6);
    assert_eq!(backoff_with_jitter(8, 256), 256);
    assert_eq!(backoff_with_jitter(8, 0), 128);
}

#[test]
fn backoff_stays_within_half_base_and_base() {
    for attempts in 1..=10 {
        let base = backoff_ceiling(attempts);
        for _ in 0..20 {
            let d = backoff_secs(attempts);
            assert!(d >= base / 2 && d <= base);
        }
    }
}

#[test]
fn request_carries_the_row() {
    let r = row(0).into_request();
    assert_eq!(r.idempotency_key, "k-1");
    assert_eq!(r.entity_type, "ticket");
    assert_eq!(r.entity_uuid, "uuid-1");
    assert_eq!(r.operation, "insert");
    assert_eq!(r.payload, "{}");
    assert_eq!(r.tenant_id, "tenant-a");
    assert_eq!(r.device_id, "device-b");
}

#[test]
fn confirmed_marks_done() {
    assert!(matches!(settle(&row(3), SyncOutcome::Confirmed, 12), QueueUpdate::Done { id: 7 }));
}

#[test]
fn failure_schedules_a_retry() {
    match settle_with_delay(&row(2), SyncOutcome::Failed("boom".into()), 12, 9) {
        QueueUpdate::Retry { id, attempts, last_error, delay_secs } => {
            assert_eq!(id, 7);
            assert_eq!(attempts, 3);
            assert_eq!(last_error, "boom");
            assert_eq!(delay_secs, 9);
        }
        other => panic!("unexpected {:?}", other),
    }
    match settle(&row(2), SyncOutcome::Failed("boom".into()), 12) {
        QueueUpdate::Retry { attempts, delay_secs, .. } => {
            assert_eq!(attempts, 3);
            assert!((4..=8).contains(&delay_secs));
        }
        other => panic!("unexpected {:?}", other),
    }
}

#[test]
fn last_attempt_moves_to_failed() {
    match settle(&row(11), SyncOutcome::Failed("down".into()), 12) {
        QueueUpdate::Failed { id, attempts, last_error } => {
            assert_eq!(id, 7);
            assert_eq!(attempts, 12);
            assert_eq!(last_error, "down");
        }
        other => panic!("unexpected {:?}", other),
    }
}

#[test]
fn confirmed_push_at_the_attempt_limit_is_done() {
    assert!(matches!(settle(&row(i64::MAX), SyncOutcome::Confirmed, 12), QueueUpdate::Done { id: 7 }));
}
