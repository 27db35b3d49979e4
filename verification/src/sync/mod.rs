//! Sync: the transactional outbox, the drain worker's decisions, and the
//! nightly safety net (reconciliation and snapshot).

pub mod ids;
pub mod client;
pub mod worker;
pub mod identity;
pub mod outbox;
pub mod nightly;
