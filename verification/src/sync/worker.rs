//! Decisions of the drain worker, which pushes the outbox to the server.
//!
//! Rows are claimed oldest first; a row is marked done only when the server
//! confirmed it; a failure counts an attempt and either schedules the next
//! try in the row itself (exponential backoff with jitter, so one stuck row
//! never blocks the queue) or, after the last allowed attempt, marks the row
//! failed.

use crate::sync::client::{is_success, SyncOutcome, SyncRequest};
use rand::Rng;
use vstd::arithmetic::power2::{lemma2_to64, pow2};
use vstd::prelude::*;

verus! {

/// One claimable outbox row.
#[derive(Debug, Clone)]
pub struct QueueRow {
    pub id: i64,
    pub idempotency_key: String,
    pub entity_type: String,
    pub entity_id: String,
    pub operation: String,
    pub payload: String,
    pub tenant_id: String,
    pub device_id: String,
    pub attempts: i64,
}

impl QueueRow {
    /// The row rendered for transport; the entity id is the record's UUID.
    pub fn into_request(&self) -> (r: SyncRequest)
        ensures
            r.idempotency_key == self.idempotency_key,
            r.entity_type == self.entity_type,
            r.entity_uuid == self.entity_id,
            r.operation == self.operation,
            r.payload == self.payload,
            r.tenant_id == self.tenant_id,
            r.device_id == self.device_id,
    {
        SyncRequest {
            idempotency_key: self.idempotency_key.clone(),
            entity_type: self.entity_type.clone(),
            entity_uuid: self.entity_id.clone(),
            operation: self.operation.clone(),
            payload: self.payload.clone(),
            tenant_id: self.tenant_id.clone(),
            device_id: self.device_id.clone(),
        }
    }
}

/// The exponent of the backoff: the attempt count clamped to `1..=8`.
pub open spec fn backoff_exponent(attempts: i64) -> nat {
    if attempts < 1 {
        1
    } else if attempts > 8 {
        8
    } else {
        attempts as nat
    }
}

/// The backoff ceiling before jitter: `2^exponent`, capped at 300 seconds.
pub open spec fn backoff_base(attempts: i64) -> int {
    let p = pow2(backoff_exponent(attempts)) as int;
    if p < 300 {
        p
    } else {
        300
    }
}

/// The delay for a given jitter drawn from `0..=base`: half the base plus
/// half the jitter, and never less than one second.
pub open spec fn backoff_delay(attempts: i64, jitter: i64) -> int {
    let d = backoff_base(attempts) / 2 + jitter / 2;
    if d < 1 {
        1
    } else {
        d
    }
}

/// Whether `jitter` is a value the random draw can give for `attempts`.
pub open spec fn jitter_in_range(attempts: i64, jitter: i64) -> bool {
    0 <= jitter <= backoff_base(attempts)
}

/// A number drawn uniformly from `0..=hi` (`rand::Rng::gen_range` on the
/// thread-local generator). Only the range is stated: the value is random.
#[verifier::external_body]
fn random_upto(hi: i64) -> (r: i64)
    requires
        hi >= 0,
    ensures
        0 <= r <= hi,
{
    rand::thread_rng().gen_range(0..=hi)
}

proof fn lemma_base_bounds(attempts: i64)
    ensures
        2 <= backoff_base(attempts) <= 256,
        backoff_base(attempts) == pow2(backoff_exponent(attempts)),
        backoff_base(attempts) % 2 == 0,
{
    lemma2_to64();
}

/// The backoff ceiling for `attempts`: `2^clamp(attempts, 1, 8)`, capped at 300.
pub fn backoff_ceiling(attempts: i64) -> (r: i64)
    ensures
        r == backoff_base(attempts),
{
    let exp: i64 = if attempts < 1 {
        1
    } else if attempts > 8 {
        8
    } else {
        attempts
    };
    let mut base: i64 = 1;
    let mut k: i64 = 0;
    proof {
        lemma2_to64();
    }
    while k < exp
        invariant
            0 <= k <= exp <= 8,
            exp == backoff_exponent(attempts),
            base == pow2(k as nat),
        decreases exp - k,
    {
        proof {
            vstd::arithmetic::power2::lemma_pow2_unfold((k + 1) as nat);
            lemma2_to64();
        }
        base = base * 2;
        k = k + 1;
    }
    if base < 300 {
        base
    } else {
        300
    }
}

/// The retry delay in seconds for `attempts` and a given jitter.
pub fn backoff_with_jitter(attempts: i64, jitter: i64) -> (r: i64)
    requires
        jitter_in_range(attempts, jitter),
    ensures
        r == backoff_delay(attempts, jitter),
{
    proof {
        lemma_base_bounds(attempts);
    }
    let base = backoff_ceiling(attempts);
    let d = base / 2 + jitter / 2;
    if d < 1 {
        1
    } else {
        d
    }
}

/// Exponential backoff with full jitter: a random jitter in `0..=base` is
/// drawn, so that devices recovering together spread their retries.
pub fn backoff_secs(attempts: i64) -> (r: i64)
    ensures
        exists|j: i64| #[trigger] jitter_in_range(attempts, j) && r == backoff_delay(attempts, j),
        1 <= r <= 256,
{
    proof {
        lemma_base_bounds(attempts);
    }
    let base = backoff_ceiling(attempts);
    let hi = if base < 1 {
        1
    } else {
        base
    };
    let jitter = random_upto(hi);
    let r = backoff_with_jitter(attempts, jitter);
    proof {
        assert(jitter_in_range(attempts, jitter));
        lemma_delay_bounds(attempts, jitter);
    }
    r
}

/// What happens to a row after one push.
#[derive(Debug, Clone)]
pub enum QueueUpdate {
    /// The server confirmed: the row is done and its error cleared.
    Done { id: i64 },
    /// The last allowed attempt failed: the row stops being retried.
    Failed { id: i64, attempts: i64, last_error: String },
    /// The attempt failed: the row waits `delay_secs` before its next try.
    Retry { id: i64, attempts: i64, last_error: String, delay_secs: i64 },
}

/// The update for row `id` with `attempts` earlier attempts, after a push
/// with `outcome`, when the next try would wait `delay` seconds.
pub open spec fn settled(
    id: i64,
    attempts: i64,
    outcome: SyncOutcome,
    max_attempts: i64,
    delay: i64,
) -> QueueUpdate {
    match outcome {
        SyncOutcome::Confirmed => QueueUpdate::Done { id },
        SyncOutcome::Failed(err) => if attempts + 1 >= max_attempts {
            QueueUpdate::Failed { id, attempts: (attempts + 1) as i64, last_error: err }
        } else {
            QueueUpdate::Retry {
                id,
                attempts: (attempts + 1) as i64,
                last_error: err,
                delay_secs: delay,
            }
        },
    }
}

/// The update for `row` after a push with `outcome`, with the next try (if
/// any) waiting `delay` seconds.
pub fn settle_with_delay(row: &QueueRow, outcome: SyncOutcome, max_attempts: i64, delay: i64) -> (r:
    QueueUpdate)
    requires
        outcome is Failed ==> row.attempts < i64::MAX,
    ensures
        r == settled(row.id, row.attempts, outcome, max_attempts, delay),
{
    match outcome {
        SyncOutcome::Confirmed => QueueUpdate::Done { id: row.id },
        SyncOutcome::Failed(err) => {
            let attempts = row.attempts + 1;
            if attempts >= max_attempts {
                QueueUpdate::Failed { id: row.id, attempts, last_error: err }
            } else {
                QueueUpdate::Retry { id: row.id, attempts, last_error: err, delay_secs: delay }
            }
        },
    }
}

/// The update for `row` after a push with `outcome`; a retry waits a fresh
/// random backoff for the new attempt count.
pub fn settle(row: &QueueRow, outcome: SyncOutcome, max_attempts: i64) -> (r: QueueUpdate)
    requires
        outcome is Failed ==> row.attempts < i64::MAX,
    ensures
        exists|j: i64|
            #[trigger] jitter_in_range((row.attempts + 1) as i64, j) && r == settled(
                row.id,
                row.attempts,
                outcome,
                max_attempts,
                backoff_delay((row.attempts + 1) as i64, j) as i64,
            ),
{
    let needs_delay = match &outcome {
        SyncOutcome::Confirmed => false,
        SyncOutcome::Failed(_) => row.attempts + 1 < max_attempts,
    };
    if needs_delay {
        let delay = backoff_secs(row.attempts + 1);
        settle_with_delay(row, outcome, max_attempts, delay)
    } else {
        let r = settle_with_delay(row, outcome, max_attempts, 1);
        proof {
            lemma_base_bounds((row.attempts + 1) as i64);
            assert(jitter_in_range((row.attempts + 1) as i64, 0));
        }
        r
    }
}

/// The backoff ceiling for each attempt count, written out: 2, 4, 8, ...,
/// 256 seconds for 1, 2, ..., 8 or more attempts (the 300-second cap is
/// never reached, as the exponent stops at 8).
pub proof fn lemma_backoff_base_values(attempts: i64)
    ensures
        backoff_base(attempts) == if attempts <= 1 {
            2int
        } else if attempts == 2 {
            4
        } else if attempts == 3 {
            8
        } else if attempts == 4 {
            16
        } else if attempts == 5 {
            32
        } else if attempts == 6 {
            64
        } else if attempts == 7 {
            128
        } else {
            256
        },
{
    lemma2_to64();
}

/// Every delay lies between half the base and the base, and is at least one
/// second and at most 256 seconds.
pub proof fn lemma_delay_bounds(attempts: i64, jitter: i64)
    requires
        jitter_in_range(attempts, jitter),
    ensures
        backoff_base(attempts) / 2 <= backoff_delay(attempts, jitter) <= backoff_base(attempts),
        1 <= backoff_delay(attempts, jitter) <= 256,
{
    lemma_base_bounds(attempts);
}

/// The backoff ceiling never shrinks as attempts grow.
pub proof fn lemma_base_monotonic(a: i64, b: i64)
    requires
        a <= b,
    ensures
        backoff_base(a) <= backoff_base(b),
{
    lemma_base_bounds(a);
    lemma_base_bounds(b);
    if backoff_exponent(a) < backoff_exponent(b) {
        vstd::arithmetic::power2::lemma_pow2_strictly_increases(
            backoff_exponent(a),
            backoff_exponent(b),
        );
    } else {
        assert(backoff_exponent(a) == backoff_exponent(b));
    }
}

/// Later attempts back off at least as long, whatever jitter either draw
/// gives, as long as the clamped exponent has grown: the smallest delay at
/// the higher exponent is at least the largest at the lower one.
pub proof fn lemma_later_attempts_wait_longer(a: i64, ja: i64, b: i64, jb: i64)
    requires
        backoff_exponent(a) < backoff_exponent(b),
        jitter_in_range(a, ja),
        jitter_in_range(b, jb),
    ensures
        backoff_delay(a, ja) <= backoff_delay(b, jb),
{
    lemma_base_bounds(a);
    lemma_base_bounds(b);
    lemma_delay_bounds(a, ja);
    lemma_delay_bounds(b, jb);
    let ea = backoff_exponent(a);
    let eb = backoff_exponent(b);
    vstd::arithmetic::power2::lemma_pow2_unfold(eb);
    vstd::arithmetic::power2::lemma_pow2_strictly_increases(ea, eb);
    if ea + 1 < eb {
        vstd::arithmetic::power2::lemma_pow2_strictly_increases(ea, (eb - 1) as nat);
    }
}

/// A row is marked done exactly when the server confirmed it; a failed push
/// counts exactly one more attempt, and the row is given up exactly when
/// that count reaches the maximum; a retry always waits at least a second.
pub proof fn lemma_settle_rules(
    id: i64,
    attempts: i64,
    outcome: SyncOutcome,
    max_attempts: i64,
    jitter: i64,
)
    requires
        attempts < i64::MAX,
        jitter_in_range((attempts + 1) as i64, jitter),
    ensures
        ({
            let delay = backoff_delay((attempts + 1) as i64, jitter) as i64;
            let u = settled(id, attempts, outcome, max_attempts, delay);
            &&& (u is Done <==> outcome is Confirmed)
            &&& (u matches QueueUpdate::Failed { attempts: n, .. } ==> n == attempts + 1
                && n >= max_attempts)
            &&& (u matches QueueUpdate::Retry { attempts: n, delay_secs: d, .. } ==> n
                == attempts + 1 && n < max_attempts && 1 <= d <= 256)
            &&& (outcome is Failed ==> !(u is Done))
        }),
{
    lemma_delay_bounds((attempts + 1) as i64, jitter);
}

/// A row is marked done only on a 2xx reply: when the push outcome is
/// judged from a reply with status `code` (confirmed exactly on 2xx, as
/// `client::outcome_for_status` decides), the row is done exactly when the
/// status is a success, and otherwise stays queued or is given up.
pub proof fn lemma_done_only_on_success(
    id: i64,
    attempts: i64,
    code: u16,
    outcome: SyncOutcome,
    max_attempts: i64,
    delay: i64,
)
    requires
        outcome is Confirmed <==> is_success(code),
    ensures
        settled(id, attempts, outcome, max_attempts, delay) is Done <==> is_success(code),
{
}

} // verus!
