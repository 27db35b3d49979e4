//! Decisions of the nightly safety net, which runs at 00:00 IST (UTC+05:30).
//!
//! It is not the main sync path (the drain worker is); it catches what the
//! incremental path missed: for each syncable table it asks the server which
//! record UUIDs it lacks and queues those again, then it takes a
//! point-in-time copy of the database and uploads it as a coarse backup.

use crate::sync::identity::Identity;
use crate::sync::ids::{hyphenated_hex, is_v4_uuid};
use crate::sync::outbox::{OutboxEntry, OP_UPDATE};
use crate::text::{double_quotes, with_doubled_quotes};
use vstd::prelude::*;

verus! {

/// A table that takes part in sync.
#[derive(Debug, Clone, Copy, PartialEq, Eq, Structural)]
pub enum SyncEntity {
    Ticket,
    Category,
    Unit,
    UserType,
}

/// The table holding the entity's records.
pub open spec fn table_name(e: SyncEntity) -> Seq<char> {
    match e {
        SyncEntity::Ticket => "tickets"@,
        SyncEntity::Category => "categories"@,
        SyncEntity::Unit => "units"@,
        SyncEntity::UserType => "user_types"@,
    }
}

/// The entity type named on the wire.
pub open spec fn wire_name(e: SyncEntity) -> Seq<char> {
    match e {
        SyncEntity::Ticket => "ticket"@,
        SyncEntity::Category => "category"@,
        SyncEntity::Unit => "unit"@,
        SyncEntity::UserType => "user_type"@,
    }
}

impl SyncEntity {
    /// The table holding this entity's records.
    pub fn table(&self) -> (r: &'static str)
        ensures
            r@ == table_name(*self),
    {
        match self {
            SyncEntity::Ticket => "tickets",
            SyncEntity::Category => "categories",
            SyncEntity::Unit => "units",
            SyncEntity::UserType => "user_types",
        }
    }

    /// The entity type named on the wire.
    pub fn entity_type(&self) -> (r: &'static str)
        ensures
            r@ == wire_name(*self),
    {
        match self {
            SyncEntity::Ticket => "ticket",
            SyncEntity::Category => "category",
            SyncEntity::Unit => "unit",
            SyncEntity::UserType => "user_type",
        }
    }
}

/// The syncable tables, in the order reconciliation visits them.
pub open spec fn sync_order() -> Seq<SyncEntity> {
    seq![SyncEntity::Ticket, SyncEntity::Category, SyncEntity::Unit, SyncEntity::UserType]
}

/// Every syncable table, in the order reconciliation visits them.
pub fn syncable() -> (r: Vec<SyncEntity>)
    ensures
        r@ == sync_order(),
{
    let mut r = Vec::new();
    r.push(SyncEntity::Ticket);
    r.push(SyncEntity::Category);
    r.push(SyncEntity::Unit);
    r.push(SyncEntity::UserType);
    r
}

/// What one nightly run did.
#[derive(Debug)]
pub struct NightlyReport {
    /// Records queued again because the server lacked them.
    pub reenqueued: u64,
    /// Where the snapshot was written, if it was.
    pub snapshot_path: Option<String>,
    /// The snapshot's file name, if the upload succeeded.
    pub snapshot_uploaded: Option<String>,
    /// One message per step that failed; the run goes on after each.
    pub errors: Vec<String>,
}

impl Default for NightlyReport {
    fn default() -> (r: Self)
        ensures
            r.reenqueued == 0,
            r.snapshot_path is None,
            r.snapshot_uploaded is None,
            r.errors@.len() == 0,
    {
        NightlyReport {
            reenqueued: 0,
            snapshot_path: None,
            snapshot_uploaded: None,
            errors: Vec::new(),
        }
    }
}

impl NightlyReport {
    /// Records the reconciliation of `table`: the number of records queued
    /// again, or the error prefixed with the table's name.
    pub fn record_reconcile(&mut self, table: &str, result: Result<u64, String>)
        requires
            result matches Ok(n) ==> old(self).reenqueued + n <= u64::MAX,
        ensures
            final(self).snapshot_path == old(self).snapshot_path,
            final(self).snapshot_uploaded == old(self).snapshot_uploaded,
            result matches Ok(n) ==> final(self).reenqueued == old(self).reenqueued + n
                && final(self).errors@ == old(self).errors@,
            result matches Err(e) ==> final(self).reenqueued == old(self).reenqueued
                && final(self).errors@.len() == old(self).errors@.len() + 1
                && final(self).errors@.drop_last() == old(self).errors@
                && final(self).errors@.last()@ == table@ + ": "@ + e@,
    {
        match result {
            Ok(n) => {
                self.reenqueued = self.reenqueued + n;
            },
            Err(e) => {
                let mut m = String::from_str(table);
                m.append(": ");
                m.append(e.as_str());
                self.errors.push(m);
                proof {
                    assert(self.errors@.drop_last() =~= old(self).errors@);
                }
            },
        }
    }

    /// Records a snapshot written to `path`, and its upload under `name`:
    /// the name when the upload succeeded, otherwise the upload's error.
    pub fn record_snapshot(&mut self, path: String, name: String, upload: Result<(), String>)
        ensures
            final(self).reenqueued == old(self).reenqueued,
            final(self).snapshot_path == Some(path),
            upload is Ok ==> final(self).snapshot_uploaded == Some(name) && final(self).errors@
                == old(self).errors@,
            upload matches Err(e) ==> final(self).snapshot_uploaded == old(self).snapshot_uploaded
                && final(self).errors@.drop_last() == old(self).errors@
                && final(self).errors@.len() == old(self).errors@.len() + 1
                && final(self).errors@.last()@ == "snapshot upload: "@ + e@,
    {
        match upload {
            Ok(()) => {
                self.snapshot_uploaded = Some(name);
            },
            Err(e) => {
                let mut m = String::from_str("snapshot upload: ");
                m.append(e.as_str());
                self.errors.push(m);
                proof {
                    assert(self.errors@.drop_last() =~= old(self).errors@);
                }
            },
        }
        self.snapshot_path = Some(path);
    }

    /// Records that no snapshot could be taken.
    pub fn record_snapshot_failure(&mut self, err: &str)
        ensures
            final(self).reenqueued == old(self).reenqueued,
            final(self).snapshot_path == old(self).snapshot_path,
            final(self).snapshot_uploaded == old(self).snapshot_uploaded,
            final(self).errors@.drop_last() == old(self).errors@,
            final(self).errors@.len() == old(self).errors@.len() + 1,
            final(self).errors@.last()@ == "snapshot: "@ + err@,
    {
        let mut m = String::from_str("snapshot: ");
        m.append(err);
        self.errors.push(m);
        proof {
            assert(self.errors@.drop_last() =~= old(self).errors@);
        }
    }
}

/// Where a nightly run stands.
#[derive(Debug)]
pub enum NightlyStage {
    /// Reconciling the syncable table at this position of `sync_order`.
    Reconciling(usize),
    /// Every table is done; the snapshot is being taken.
    Snapshotting,
    /// The snapshot written to `path` is being uploaded under `name`.
    Uploading { path: String, name: String },
    /// Nothing is left to do.
    Finished,
}

/// What the runner does next.
#[derive(Debug)]
pub enum NightlyAction {
    /// Reconcile this table and report the number of records queued again.
    Reconcile(SyncEntity),
    /// Take a snapshot and report its path and file name.
    TakeSnapshot,
    /// Upload the snapshot just taken, under this file name.
    Upload { name: String },
    /// The run is over; its report is final.
    Finish,
}

/// What the runner reports back after an action.
#[derive(Debug)]
pub enum NightlyEvent {
    /// The reconciliation of the current table: records queued, or an error.
    Reconciled(Result<u64, String>),
    /// The snapshot: its path and file name, or an error.
    SnapshotTaken(Result<(String, String), String>),
    /// The upload of the snapshot.
    Uploaded(Result<(), String>),
}

/// One nightly run: reconciliation of each syncable table in turn, then the
/// snapshot, then its upload, with every failure recorded and none stopping
/// the run.
#[derive(Debug)]
pub struct NightlyRun {
    pub report: NightlyReport,
    pub stage: NightlyStage,
}

/// Steps a run still has to take from `stage` (at most six in all).
pub open spec fn steps_left(stage: NightlyStage) -> int {
    match stage {
        NightlyStage::Reconciling(i) => 4 - i + 2,
        NightlyStage::Snapshotting => 2,
        NightlyStage::Uploading { .. } => 1,
        NightlyStage::Finished => 0,
    }
}

/// Whether `stage` is one a run can be in.
pub open spec fn stage_ok(stage: NightlyStage) -> bool {
    stage matches NightlyStage::Reconciling(i) ==> i < 4
}

/// Whether `event` answers the action asked at `stage`.
pub open spec fn event_fits(stage: NightlyStage, event: NightlyEvent) -> bool {
    match stage {
        NightlyStage::Reconciling(_) => event is Reconciled,
        NightlyStage::Snapshotting => event is SnapshotTaken,
        NightlyStage::Uploading { .. } => event is Uploaded,
        NightlyStage::Finished => false,
    }
}

impl NightlyRun {
    /// A run that has done nothing yet: it starts with the first table.
    pub fn new() -> (r: Self)
        ensures
            r.stage == NightlyStage::Reconciling(0),
            r.report.reenqueued == 0,
            r.report.snapshot_path is None,
            r.report.snapshot_uploaded is None,
            r.report.errors@.len() == 0,
    {
        NightlyRun { report: NightlyReport::default(), stage: NightlyStage::Reconciling(0) }
    }

    /// The action the run asks for at its current stage.
    pub fn next_action(&self) -> (r: NightlyAction)
        requires
            stage_ok(self.stage),
        ensures
            match self.stage {
                NightlyStage::Reconciling(i) => r == NightlyAction::Reconcile(sync_order()[i as int]),
                NightlyStage::Snapshotting => r is TakeSnapshot,
                NightlyStage::Uploading { name, .. } => (r matches NightlyAction::Upload { name: n }
                    && n@ == name@),
                NightlyStage::Finished => r is Finish,
            },
    {
        match &self.stage {
            NightlyStage::Reconciling(i) => {
                let order = syncable();
                NightlyAction::Reconcile(order[*i])
            },
            NightlyStage::Snapshotting => NightlyAction::TakeSnapshot,
            NightlyStage::Uploading { name, .. } => NightlyAction::Upload { name: name.clone() },
            NightlyStage::Finished => NightlyAction::Finish,
        }
    }

    /// Takes in the outcome of the current action: records it in the report
    /// and moves to the next stage. A failed snapshot ends the run without an
    /// upload; every other failure is recorded and the run goes on.
    pub fn advance(&mut self, event: NightlyEvent)
        requires
            stage_ok(old(self).stage),
            event_fits(old(self).stage, event),
            event matches NightlyEvent::Reconciled(Ok(n)) ==> old(self).report.reenqueued + n
                <= u64::MAX,
        ensures
            stage_ok(final(self).stage),
            steps_left(final(self).stage) < steps_left(old(self).stage),
            match (old(self).stage, event) {
                (NightlyStage::Reconciling(i), NightlyEvent::Reconciled(result)) => {
                    &&& final(self).stage == if i + 1 < 4 {
                        NightlyStage::Reconciling((i + 1) as usize)
                    } else {
                        NightlyStage::Snapshotting
                    }
                    &&& (result matches Ok(n) ==> final(self).report.reenqueued
                        == old(self).report.reenqueued + n && final(self).report.errors@ == old(
                        self,
                    ).report.errors@)
                    &&& (result matches Err(e) ==> final(self).report.reenqueued == old(
                        self,
                    ).report.reenqueued && final(self).report.errors@.drop_last() == old(
                        self,
                    ).report.errors@ && final(self).report.errors@.len() == old(
                        self,
                    ).report.errors@.len() + 1 && final(self).report.errors@.last()@ == table_name(
                        sync_order()[i as int],
                    ) + ": "@ + e@)
                    &&& final(self).report.snapshot_path == old(self).report.snapshot_path
                    &&& final(self).report.snapshot_uploaded == old(self).report.snapshot_uploaded
                },
                (NightlyStage::Snapshotting, NightlyEvent::SnapshotTaken(Ok((path, name)))) => {
                    &&& final(self).stage == NightlyStage::Uploading { path, name }
                    &&& final(self).report == old(self).report
                },
                (NightlyStage::Snapshotting, NightlyEvent::SnapshotTaken(Err(e))) => {
                    &&& final(self).stage == NightlyStage::Finished
                    &&& final(self).report.reenqueued == old(self).report.reenqueued
                    &&& final(self).report.snapshot_path == old(self).report.snapshot_path
                    &&& final(self).report.snapshot_uploaded == old(self).report.snapshot_uploaded
                    &&& final(self).report.errors@.drop_last() == old(self).report.errors@
                    &&& final(self).report.errors@.len() == old(self).report.errors@.len() + 1
                    &&& final(self).report.errors@.last()@ == "snapshot: "@ + e@
                },
                (NightlyStage::Uploading { path, name }, NightlyEvent::Uploaded(upload)) => {
                    &&& final(self).stage == NightlyStage::Finished
                    &&& final(self).report.reenqueued == old(self).report.reenqueued
                    &&& final(self).report.snapshot_path == Some(path)
                    &&& (upload is Ok ==> final(self).report.snapshot_uploaded == Some(name)
                        && final(self).report.errors@ == old(self).report.errors@)
                    &&& (upload matches Err(e) ==> final(self).report.snapshot_uploaded == old(
                        self,
                    ).report.snapshot_uploaded && final(self).report.errors@.drop_last() == old(
                        self,
                    ).report.errors@ && final(self).report.errors@.len() == old(
                        self,
                    ).report.errors@.len() + 1 && final(self).report.errors@.last()@
                        == "snapshot upload: "@ + e@)
                },
                _ => false,
            },
    {
        let mut stage = NightlyStage::Finished;
        std::mem::swap(&mut stage, &mut self.stage);
        match (stage, event) {
            (NightlyStage::Reconciling(i), NightlyEvent::Reconciled(result)) => {
                let order = syncable();
                let table = order[i].table();
                self.report.record_reconcile(table, result);
                self.stage = if i + 1 < 4 {
                    NightlyStage::Reconciling(i + 1)
                } else {
                    NightlyStage::Snapshotting
                };
            },
            (NightlyStage::Snapshotting, NightlyEvent::SnapshotTaken(taken)) => {
                match taken {
                    Ok((path, name)) => {
                        self.stage = NightlyStage::Uploading { path, name };
                    },
                    Err(e) => {
                        self.report.record_snapshot_failure(e.as_str());
                    },
                }
            },
            (NightlyStage::Uploading { path, name }, NightlyEvent::Uploaded(upload)) => {
                self.report.record_snapshot(path, name, upload);
            },
            _ => {},
        }
    }
}

/// A run visits every syncable table exactly once, in order, then takes the
/// snapshot, then (only when the snapshot was taken) uploads it, and ends:
/// from any stage it reaches `Finished` within `steps_left` steps, so at most
/// six in all.
pub proof fn lemma_run_order(stage: NightlyStage)
    requires
        stage_ok(stage),
    ensures
        0 <= steps_left(stage) <= 6,
        steps_left(stage) == 0 <==> stage is Finished,
        stage is Uploading ==> steps_left(stage) == 1,
{
}

/// What reconciling one table does next.
#[derive(Debug)]
pub enum ReconcileStep {
    /// Ask the server which of the local record UUIDs it lacks.
    AskServer,
    /// Queue the record with this UUID again (see `reenqueue_entry`).
    Queue(String),
    /// The table is done; this many records were queued again.
    Finished(u64),
}

/// The reconciliation of one table: when the table holds no record UUIDs
/// the server is not asked at all; otherwise every UUID the server says it
/// lacks is queued again, one after another, and counted.
#[derive(Debug)]
pub struct TableReconcile {
    /// Whether the table holds any record UUIDs.
    pub has_local: bool,
    /// The UUIDs the server lacks, once it has answered.
    pub missing: Option<Vec<String>>,
    /// How many of them have been queued again so far.
    pub queued: usize,
}

/// Whether `t` is a state a table reconciliation can be in.
pub open spec fn reconcile_ok(t: TableReconcile) -> bool {
    &&& (t.missing is Some ==> t.has_local)
    &&& t.queued <= match t.missing {
        Some(m) => m@.len(),
        None => 0,
    }
}

impl TableReconcile {
    /// The reconciliation of a table holding these record UUIDs.
    pub fn new(local_uuids: &Vec<String>) -> (r: Self)
        ensures
            r.has_local == (local_uuids@.len() > 0),
            r.missing is None,
            r.queued == 0,
    {
        TableReconcile { has_local: local_uuids.len() > 0, missing: None, queued: 0 }
    }

    /// The next step: nothing to do for a table without UUIDs; otherwise the
    /// server question, then each missing UUID in the order given, then the
    /// count of records queued.
    pub fn next_step(&self) -> (r: ReconcileStep)
        requires
            reconcile_ok(*self),
        ensures
            !self.has_local ==> r == ReconcileStep::Finished(0),
            self.has_local && self.missing is None ==> r is AskServer,
            self.missing matches Some(m) ==> (self.queued < m@.len() ==> (r matches ReconcileStep::Queue(u)
                && u == m@[self.queued as int])),
            self.missing matches Some(m) ==> (self.queued == m@.len() ==> r
                == ReconcileStep::Finished(self.queued as u64)),
    {
        if !self.has_local {
            return ReconcileStep::Finished(0);
        }
        match &self.missing {
            None => ReconcileStep::AskServer,
            Some(m) => {
                if self.queued < m.len() {
                    ReconcileStep::Queue(m[self.queued].clone())
                } else {
                    ReconcileStep::Finished(self.queued as u64)
                }
            },
        }
    }

    /// Takes in the server's answer: the UUIDs it lacks.
    pub fn server_answered(&mut self, missing: Vec<String>)
        requires
            reconcile_ok(*old(self)),
            old(self).has_local,
            old(self).missing is None,
        ensures
            reconcile_ok(*final(self)),
            final(self).has_local,
            final(self).missing == Some(missing),
            final(self).queued == 0,
    {
        self.missing = Some(missing);
        self.queued = 0;
    }

    /// Takes in that the record asked for by `Queue` was queued again.
    pub fn queued_one(&mut self)
        requires
            reconcile_ok(*old(self)),
            old(self).missing matches Some(m) && old(self).queued < m@.len(),
        ensures
            reconcile_ok(*final(self)),
            final(self).has_local == old(self).has_local,
            final(self).missing == old(self).missing,
            final(self).queued == old(self).queued + 1,
    {
        proof {
            if let Some(m) = &self.missing {
                assert(m@.len() == m.len());
            }
        }
        self.queued = self.queued + 1;
    }
}

/// The body queued for a record the server lacks: its row as JSON when it
/// could be read, otherwise an object naming only its UUID.
pub open spec fn reenqueue_body(uuid: Seq<char>, row_json: Option<Seq<char>>) -> Seq<char> {
    match row_json {
        Some(j) => j,
        None => "{\"uuid\":\""@ + uuid + "\"}"@,
    }
}

/// The queue row that sends the record `uuid` again, as an update (the
/// server upserts by UUID).
pub fn reenqueue_entry(
    identity: &Identity,
    entity_type: &str,
    uuid: &str,
    row_json: Option<String>,
) -> (r: OutboxEntry)
    ensures
        r.entity_type@ == entity_type@,
        r.entity_id@ == uuid@,
        r.operation@ == OP_UPDATE@,
        r.payload@ == reenqueue_body(
            uuid@,
            match row_json {
                Some(j) => Some(j@),
                None => None,
            },
        ),
        r.tenant_id == identity.tenant_id,
        r.device_id == identity.device_id,
        exists|b: Seq<u8>| is_v4_uuid(b) && #[trigger] hyphenated_hex(b) == r.idempotency_key@,
{
    let body = match row_json {
        Some(j) => j,
        None => {
            let mut b = String::from_str("{\"uuid\":\"");
            b.append(uuid);
            b.append("\"}");
            b
        },
    };
    OutboxEntry::new(identity, entity_type, uuid, OP_UPDATE, body)
}

/// Offset of IST from UTC, in seconds.
pub const IST_OFFSET_SECS: i64 = 19800;

/// Seconds in a day.
pub const DAY_SECS: i64 = 86400;

/// Whole seconds from the instant `secs` (seconds since the Unix epoch) plus
/// `nanos` nanoseconds until the next 00:00:00 IST strictly after the
/// current IST day began.
pub open spec fn secs_until_midnight_ist(secs: int, nanos: int) -> int {
    let day = DAY_SECS as int;
    let whole = day - (secs + IST_OFFSET_SECS) % day;
    if nanos > 0 {
        whole - 1
    } else {
        whole
    }
}

/// Seconds from the given instant until the next 00:00 IST. Instants before
/// the epoch count too: the day is found by Euclidean remainder.
pub fn secs_until_midnight_ist_from(secs: i64, nanos: u32) -> (r: u64)
    requires
        secs <= i64::MAX - IST_OFFSET_SECS,
        nanos < 1_000_000_000,
    ensures
        r == secs_until_midnight_ist(secs as int, nanos as int),
{
    let shifted = secs + IST_OFFSET_SECS;
    let into_day = shifted.checked_rem_euclid(DAY_SECS).unwrap();
    let whole = DAY_SECS - into_day;
    let r = if nanos > 0 {
        whole - 1
    } else {
        whole
    };
    r as u64
}

/// The earliest instant `chrono` represents (-262143-01-01T00:00:00 UTC), in
/// seconds since the Unix epoch.
pub const EARLIEST_UTC_SECS: i64 = -8_334_601_315_200;

/// The latest instant `chrono` represents (262142-12-31T23:59:59 UTC), in
/// seconds since the Unix epoch.
pub const LATEST_UTC_SECS: i64 = 8_210_266_876_799;

/// The current time, read with `std::time::SystemTime::now` and converted by
/// `chrono`'s `From<SystemTime> for DateTime<Utc>`, as whole seconds since the
/// Unix epoch (negative before it) and the nanoseconds past that second.
/// The conversion takes clocks set before the epoch as well. Stated: the
/// seconds lie in the range `chrono` represents and the nanoseconds stay below
/// one second. Left unsaid: the time itself. The conversion ends in an
/// `unwrap`, which fails only for a clock reading outside that range, about
/// 262,000 years away from 1970.
#[verifier::external_body]
fn utc_now() -> (r: (i64, u32))
    ensures
        EARLIEST_UTC_SECS <= r.0 <= LATEST_UTC_SECS,
        r.1 < 1_000_000_000,
{
    let now = chrono::DateTime::<chrono::Utc>::from(std::time::SystemTime::now());
    (now.timestamp(), now.timestamp_subsec_nanos())
}

/// A wait for the next 00:00 IST with the clock reading it was measured from.
#[derive(Debug, Clone, Copy)]
pub struct MidnightWait {
    /// Whole seconds since the Unix epoch when the clock was read.
    pub now_secs: i64,
    /// Nanoseconds past that second.
    pub now_nanos: u32,
    /// Seconds from that reading until the next IST midnight.
    pub wait_secs: u64,
}

/// Reads the clock once and measures the wait for the next 00:00 IST from
/// exactly that reading.
pub fn midnight_wait_now() -> (r: MidnightWait)
    ensures
        EARLIEST_UTC_SECS <= r.now_secs <= LATEST_UTC_SECS,
        r.now_nanos < 1_000_000_000,
        r.wait_secs == secs_until_midnight_ist(r.now_secs as int, r.now_nanos as int),
        r.wait_secs <= DAY_SECS,
{
    let (secs, nanos) = utc_now();
    let wait_secs = secs_until_midnight_ist_from(secs, nanos);
    MidnightWait { now_secs: secs, now_nanos: nanos, wait_secs }
}

/// Seconds from now until the next 00:00 IST. IST has no daylight saving,
/// so the fixed offset is right all year. The reading the wait is measured
/// from is not returned here; `midnight_wait_now` returns it with the wait.
pub fn secs_until_next_midnight_ist() -> (r: u64)
    ensures
        exists|secs: i64, nanos: u32|
            EARLIEST_UTC_SECS <= secs <= LATEST_UTC_SECS && nanos < 1_000_000_000 && r
                == #[trigger] secs_until_midnight_ist(
                secs as int,
                nanos as int,
            ),
        r <= DAY_SECS,
{
    let w = midnight_wait_now();
    w.wait_secs
}

/// The wait always lands on an IST midnight, strictly in the future, and
/// never more than a day ahead: `secs + wait` (plus the second already begun)
/// is a multiple of a day in IST.
pub proof fn lemma_midnight_wait_lands_on_midnight(secs: int, nanos: int)
    requires
        0 <= nanos < 1_000_000_000,
    ensures
        ({
            let w = secs_until_midnight_ist(secs, nanos);
            let carry = if nanos > 0 {
                1int
            } else {
                0int
            };
            &&& 0 <= w <= DAY_SECS
            &&& (secs + w + carry + IST_OFFSET_SECS) % (DAY_SECS as int) == 0
            &&& w + carry >= 1
        }),
{
    let day = DAY_SECS as int;
    let k = (secs + IST_OFFSET_SECS) % day;
    let q = (secs + IST_OFFSET_SECS) / day;
    assert(secs + IST_OFFSET_SECS == q * day + k);
    assert(secs + (day - k) + IST_OFFSET_SECS == (q + 1) * day);
    assert(((q + 1) * day) % day == 0) by {
        vstd::arithmetic::div_mod::lemma_mod_multiples_basic(q + 1, day);
    }
}

/// The UTC time `secs` seconds after the Unix epoch written as
/// `YYYYMMDDTHHMMSSZ` (`chrono`'s `%Y%m%dT%H%M%SZ`).
pub uninterp spec fn utc_compact_stamp(secs: i64) -> Seq<char>;

/// Formats an instant with `chrono` (`DateTime::from_timestamp`, then
/// `format("%Y%m%dT%H%M%SZ")`); every instant in range has a date.
#[verifier::external_body]
fn format_utc_compact(secs: i64) -> (r: String)
    requires
        EARLIEST_UTC_SECS <= secs <= LATEST_UTC_SECS,
    ensures
        r@ == utc_compact_stamp(secs),
{
    match chrono::DateTime::from_timestamp(secs, 0) {
        Some(t) => t.format("%Y%m%dT%H%M%SZ").to_string(),
        None => String::new(),
    }
}

/// The snapshot file name for a timestamp: timestamped names keep the
/// snapshots ordered and distinct.
pub fn snapshot_file_name(stamp: &str) -> (r: String)
    ensures
        r@ == "snapshot-"@ + stamp@ + ".db"@,
{
    let mut r = String::from_str("snapshot-");
    r.append(stamp);
    r.append(".db");
    r
}

/// The snapshot file name for the instant `secs` seconds after the epoch.
pub fn snapshot_file_name_at(secs: i64) -> (r: String)
    requires
        EARLIEST_UTC_SECS <= secs <= LATEST_UTC_SECS,
    ensures
        r@ == "snapshot-"@ + utc_compact_stamp(secs) + ".db"@,
{
    let stamp = format_utc_compact(secs);
    snapshot_file_name(stamp.as_str())
}

/// The snapshot file name for the current time.
pub fn snapshot_file_name_now() -> (r: String)
    ensures
        exists|secs: i64|
            EARLIEST_UTC_SECS <= secs <= LATEST_UTC_SECS && r@ == "snapshot-"@ + #[trigger] utc_compact_stamp(secs)
                + ".db"@,
{
    let (secs, _) = utc_now();
    snapshot_file_name_at(secs)
}

/// The statement that writes a consistent copy of the database to `path`.
/// `VACUUM INTO` takes no bound parameter, so the path is written as an SQL
/// string literal with its single quotes doubled.
pub fn vacuum_into_sql(path: &str) -> (r: String)
    ensures
        r@ == "VACUUM INTO '"@ + double_quotes(path@) + "'"@,
{
    let mut r = String::from_str("VACUUM INTO '");
    let escaped = with_doubled_quotes(path);
    r.append(escaped.as_str());
    r.append("'");
    r
}

} // verus!
