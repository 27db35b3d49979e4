use ticketing::config::{AppConfig, EnvVars};
use ticketing::sync::client::{
    check_status, normalize_base_url, outcome_for_status, outcome_for_transport_error,
    reconcile_url, snapshot_url, status_is_success, upsert_url, SyncOutcome,
};
use ticketing::sync::identity::{plan_device_id, DeviceIdPlan, Identity};
use ticketing::sync::ids::{new_uuid, new_uuid_simple, uuid_hyphenated, uuid_simple};
use ticketing::sync::nightly::{
    NightlyAction, NightlyEvent, NightlyRun, NightlyStage, ReconcileStep, TableReconcile,
    reenqueue_entry, secs_until_midnight_ist_from, secs_until_next_midnight_ist,
    snapshot_file_name, snapshot_file_name_at, snapshot_file_name_now, syncable, vacuum_into_sql, NightlyReport,
    SyncEntity, EARLIEST_UTC_SECS, LATEST_UTC_SECS,
};
use ticketing::sync::outbox::{delete_payload, OutboxEntry, OP_DELETE, OP_INSERT, OP_UPDATE};

fn identity() -> Identity {
    Identity {
        device_id: "dev-1".into(),
        tenant_id: "tenant-9".into(),
        device_token: "tok".into(),
    }
}

fn is_dashed_v4(s: &str) -> bool {
    let b = s.as_bytes();
    s.len() == 36
        && [8, 13, 18, 23].iter().all(|&i| b[i] == b'-')
        && s.chars().enumerate().all(|(i, c)| {
            [8, 13, 18, 23].contains(&i) || (c.is_ascii_hexdigit() && !c.is_ascii_uppercase())
        })
        && b[14] == b'4'
        && matches!(b[19], b'8' | b'9' | b'a' | b'b')
}

#[test]
fn uuid_forms() {
    let bytes = [0u8, 1, 2, 3, 4, 5, 0x46, 7, 0x88, 9, 10, 11, 12, 13, 14, 0xfe];
    assert_eq!(uuid_simple(&bytes), "00010203040546078809" .to_string() + "0a0b0c0d0efe");
    assert_eq!(uuid_hyphenated(&bytes), "00010203-0405-4607-8809-0a0b0c0d0efe");
    let u = new_uuid();
    assert!(is_dashed_v4(&u), "{}", u);
    assert_ne!(new_uuid(), u);
    let s = new_uuid_simple();
    assert_eq!(s.len(), 32);
    assert_eq!(&s[12..13], "4");
}

#[test]
fn urls() {
    assert_eq!(normalize_base_url("http://localhost:8080//"), "http://localhost:8080");
    assert_eq!(normalize_base_url("http://h"), "http://h");
    assert_eq!(upsert_url("http://h"), "http://h/sync/upsert");
    assert_eq!(reconcile_url("http://h"), "http://h/sync/reconcile");
    assert_eq!(snapshot_url("http://h"), "http://h/sync/snapshot");
}

#[test]
fn reply_judgement() {
    assert!(status_is_success(200) && status_is_success(204) && status_is_success(299));
    assert!(!status_is_success(199) && !status_is_success(300) && !status_is_success(500));
    assert!(matches!(outcome_for_status(201, "ignored"), SyncOutcome::Confirmed));
    match outcome_for_status(404, "nope") {
        SyncOutcome::Failed(m) => assert_eq!(m, "server returned 404 Not Found: nope"),
        SyncOutcome::Confirmed => panic!("404 must not confirm"),
    }
    match outcome_for_status(599, "") {
        SyncOutcome::Failed(m) => assert_eq!(m, "server returned 599 <unknown status code>: "),
        SyncOutcome::Confirmed => panic!("599 must not confirm"),
    }
    match outcome_for_transport_error("timed out") {
        SyncOutcome::Failed(m) => assert_eq!(m, "request failed: timed out"),
        SyncOutcome::Confirmed => panic!("no reply must not confirm"),
    }
    assert_eq!(check_status("reconcile", 200), Ok(()));
    assert_eq!(
        check_status("snapshot upload", 503),
        Err("snapshot upload returned 503 Service Unavailable".to_string())
    );
}

#[test]
fn identity_from_config() {
    let c = AppConfig::from_env(EnvVars {
        cloud_api_url: None,
        log_level: None,
        db_filename: None,
        tenant_id: Some("t1".into()),
        device_token: Some("d1".into()),
        sync_interval_secs: None,
        sync_max_attempts: None,
    });
    let i = Identity::from_config("dev-x".into(), &c);
    assert_eq!((i.device_id.as_str(), i.tenant_id.as_str(), i.device_token.as_str()), ("dev-x", "t1", "d1"));
}

#[test]
fn device_id_is_kept_once_stored() {
    match plan_device_id(Some("stored-id".into())) {
        DeviceIdPlan::Stored(s) => assert_eq!(s, "stored-id"),
        other => panic!("unexpected {:?}", other),
    }
    match plan_device_id(None) {
        DeviceIdPlan::Fresh(s) => assert!(is_dashed_v4(&s), "{}", s),
        other => panic!("unexpected {:?}", other),
    }
}

#[test]
fn outbox_entry_carries_record_and_identity() {
    let e = OutboxEntry::new(&identity(), "ticket", "rec-uuid", OP_INSERT, "{\"a\":1}".into());
    assert_eq!(e.entity_type, "ticket");
    assert_eq!(e.entity_id, "rec-uuid");
    assert_eq!(e.operation, "insert");
    assert_eq!(e.payload, "{\"a\":1}");
    assert_eq!(e.tenant_id, "tenant-9");
    assert_eq!(e.device_id, "dev-1");
    assert!(is_dashed_v4(&e.idempotency_key));
    let f = OutboxEntry::new(&identity(), "ticket", "rec-uuid", OP_INSERT, "{}".into());
    assert_ne!(e.idempotency_key, f.idempotency_key);
    assert_eq!((OP_UPDATE, OP_DELETE), ("update", "delete"));
}

#[test]
fn delete_payload_is_json() {
    assert_eq!(delete_payload("abc"), "{\"uuid\":\"abc\"}");
    assert_eq!(delete_payload("a\"b\\c"), "{\"uuid\":\"a\\\"b\\\\c\"}");
}

#[test]
fn syncable_tables_in_order() {
    let names: Vec<(&str, &str)> = syncable().iter().map(|e| (e.table(), e.entity_type())).collect();
    assert_eq!(
        names,
        vec![("tickets", "ticket"), ("categories", "category"), ("units", "unit"), ("user_types", "user_type")]
    );
    assert_eq!(SyncEntity::UserType.table(), "user_types");
}

#[test]
fn report_records_each_step() {
    let mut r = NightlyReport::default();
    assert_eq!(r.reenqueued, 0);
    r.record_reconcile("tickets", Ok(3));
    r.record_reconcile("units", Err("reconcile returned 500 Internal Server Error".into()));
    r.record_reconcile("categories", Ok(2));
    assert_eq!(r.reenqueued, 5);
    assert_eq!(r.errors, vec!["units: reconcile returned 500 Internal Server Error".to_string()]);
    r.record_snapshot("/d/snapshot-x.db".into(), "snapshot-x.db".into(), Err("offline".into()));
    assert_eq!(r.snapshot_path.as_deref(), Some("/d/snapshot-x.db"));
    assert_eq!(r.snapshot_uploaded, None);
    assert_eq!(r.errors.last().map(|s| s.as_str()), Some("snapshot upload: offline"));
    r.record_snapshot("/d/snapshot-y.db".into(), "snapshot-y.db".into(), Ok(()));
    assert_eq!(r.snapshot_uploaded.as_deref(), Some("snapshot-y.db"));
    r.record_snapshot_failure("mkdir snapshot dir: denied");
    assert_eq!(r.errors.len(), 3);
    assert_eq!(r.errors[2], "snapshot: mkdir snapshot dir: denied");
}

#[test]
fn reenqueue_uses_row_or_uuid_only() {
    let e = reenqueue_entry(&identity(), "unit", "u-1", None);
    assert_eq!(e.payload, "{\"uuid\":\"u-1\"}");
    assert_eq!(e.operation, "update");
    assert_eq!(e.entity_id, "u-1");
    assert_eq!(e.entity_type, "unit");
    assert!(is_dashed_v4(&e.idempotency_key));
    assert_ne!(e.idempotency_key, "u-1");
    let e = reenqueue_entry(&identity(), "unit", "u-1", Some("{\"uuid\":\"u-1\",\"x\":1}".into()));
    assert_eq!(e.payload, "{\"uuid\":\"u-1\",\"x\":1}");
}

#[test]
fn wait_until_ist_midnight() {
    // 2024-01-01T18:30:00Z is 00:00 IST on 2024-01-02: a full day to the next one.
    assert_eq!(secs_until_midnight_ist_from(1_704_133_800, 0), 86_400);
    assert_eq!(secs_until_midnight_ist_from(1_704_133_800, 5), 86_399);
    // One hour before that midnight.
    assert_eq!(secs_until_midnight_ist_from(1_704_130_200, 0), 3_600);
    assert_eq!(secs_until_midnight_ist_from(0, 0), 86_400 - 19_800);
    let w = secs_until_next_midnight_ist();
    assert!(w <= 86_400);
}

#[test]
fn clock_before_the_epoch() {
    // 1969-12-31T23:59:59Z is 05:29:59 IST; the next IST midnight is 18:30:00Z.
    assert_eq!(secs_until_midnight_ist_from(-1, 0), 66_601);
    // One second before the IST midnight at -19800.
    assert_eq!(secs_until_midnight_ist_from(-19_801, 0), 1);
    assert_eq!(secs_until_midnight_ist_from(-19_801, 500), 0);
    assert_eq!(secs_until_midnight_ist_from(-19_800, 0), 86_400);
    assert_eq!(secs_until_midnight_ist_from(-86_400 * 365, 0), 86_400 - 19_800);
    assert_eq!(snapshot_file_name_at(-1), "snapshot-19691231T235959Z.db");
    assert_eq!(snapshot_file_name_at(-86_400), "snapshot-19691231T000000Z.db");
    // The ends of chrono's range still format.
    assert!(snapshot_file_name_at(EARLIEST_UTC_SECS).starts_with("snapshot-"));
    assert!(snapshot_file_name_at(LATEST_UTC_SECS).ends_with("1231T235959Z.db"));
}

#[test]
fn snapshot_names_and_statement() {
    assert_eq!(snapshot_file_name("20260102T030405Z"), "snapshot-20260102T030405Z.db");
    assert_eq!(snapshot_file_name_at(1_767_322_245), "snapshot-20260102T025045Z.db");
    assert_eq!(snapshot_file_name_at(0), "snapshot-19700101T000000Z.db");
    let n = snapshot_file_name_now();
    assert!(n.starts_with("snapshot-") && n.ends_with("Z.db") && n.len() == 28, "{}", n);
    assert_eq!(vacuum_into_sql("/tmp/a.db"), "VACUUM INTO '/tmp/a.db'");
    assert_eq!(vacuum_into_sql("/tmp/o'brien/a.db"), "VACUUM INTO '/tmp/o''brien/a.db'");
}

#[test]
fn nightly_run_visits_tables_then_snapshot_then_upload() {
    let mut run = NightlyRun::new();
    let mut seen = Vec::new();
    loop {
        match run.next_action() {
            NightlyAction::Reconcile(e) => {
                seen.push(e.table());
                let result = if e == SyncEntity::Unit { Err("offline".to_string()) } else { Ok(2) };
                run.advance(NightlyEvent::Reconciled(result));
            }
            NightlyAction::TakeSnapshot => {
                seen.push("snapshot");
                run.advance(NightlyEvent::SnapshotTaken(Ok(("/d/s.db".into(), "s.db".into()))));
            }
            NightlyAction::Upload { name } => {
                assert_eq!(name, "s.db");
                seen.push("upload");
                run.advance(NightlyEvent::Uploaded(Ok(())));
            }
            NightlyAction::Finish => break,
        }
    }
    assert_eq!(seen, vec!["tickets", "categories", "units", "user_types", "snapshot", "upload"]);
    assert!(matches!(run.stage, NightlyStage::Finished));
    assert_eq!(run.report.reenqueued, 6);
    assert_eq!(run.report.errors, vec!["units: offline".to_string()]);
    assert_eq!(run.report.snapshot_path.as_deref(), Some("/d/s.db"));
    assert_eq!(run.report.snapshot_uploaded.as_deref(), Some("s.db"));
}

#[test]
fn failed_snapshot_ends_the_run_without_upload() {
    let mut run = NightlyRun::new();
    for _ in 0..4 {
        assert!(matches!(run.next_action(), NightlyAction::Reconcile(_)));
        run.advance(NightlyEvent::Reconciled(Ok(0)));
    }
    assert!(matches!(run.next_action(), NightlyAction::TakeSnapshot));
    run.advance(NightlyEvent::SnapshotTaken(Err("mkdir snapshot dir: denied".into())));
    assert!(matches!(run.next_action(), NightlyAction::Finish));
    assert_eq!(run.report.errors, vec!["snapshot: mkdir snapshot dir: denied".to_string()]);
    assert!(run.report.snapshot_path.is_none());
}

#[test]
fn uuid_forms_match_the_uuid_crate() {
    for _ in 0..50 {
        let id = uuid::Uuid::new_v4();
        let b = *id.as_bytes();
        assert_eq!(uuid_simple(&b), id.simple().to_string());
        assert_eq!(uuid_hyphenated(&b), id.to_string());
    }
}

#[test]
fn delete_payload_matches_serde_json() {
    for s in ["plain", "q\"uote", "back\\slash", "ctl\u{1}\u{8}\u{c}\n\r\t\u{1f}", "del\u{7f}", "ünï\u{2028}"] {
        let expected = format!("{{\"uuid\":{}}}", serde_json::to_string(s).unwrap());
        assert_eq!(delete_payload(s), expected, "input {:?}", s);
    }
    assert_eq!(delete_payload("\u{1}"), "{\"uuid\":\"\\u0001\"}");
}

#[test]
fn table_without_uuids_skips_the_server() {
    let t = TableReconcile::new(&Vec::new());
    assert!(matches!(t.next_step(), ReconcileStep::Finished(0)));
}

#[test]
fn table_reconcile_queues_each_missing_uuid_once() {
    let local = vec!["a".to_string(), "b".to_string(), "c".to_string()];
    let mut t = TableReconcile::new(&local);
    assert!(matches!(t.next_step(), ReconcileStep::AskServer));
    t.server_answered(vec!["c".to_string(), "a".to_string()]);
    let mut queued = Vec::new();
    loop {
        match t.next_step() {
            ReconcileStep::Queue(u) => {
                queued.push(u);
                t.queued_one();
            }
            ReconcileStep::Finished(n) => {
                assert_eq!(n, 2);
                break;
            }
            ReconcileStep::AskServer => panic!("asked twice"),
        }
    }
    assert_eq!(queued, vec!["c".to_string(), "a".to_string()]);
}

#[test]
fn nothing_missing_means_nothing_queued() {
    let mut t = TableReconcile::new(&vec!["a".to_string()]);
    t.server_answered(Vec::new());
    assert!(matches!(t.next_step(), ReconcileStep::Finished(0)));
}
