//! Accounting, scheduling and event-outbox logic of a bitcoin payout wallet service.
pub mod fees;
pub mod job;
pub mod job_svc;
pub mod ledger;
pub mod outbox;
pub mod primitives;
pub mod uuid_text;
