//! Jobs run by the job service: the outbox handler of each account.
use vstd::prelude::*;

use crate::primitives::{AccountId, LedgerJournalId};

verus! {

/// The job that fills an account's outbox from its journal.
pub const POPULATE_OUTBOX_JOB_TYPE: &'static str = "populate_outbox";

/// The outbox handler's data: the account and the journal it reads.
#[derive(Clone, Debug)]
pub struct PopulateOutboxJobConfig {
    pub account_id: AccountId,
    pub journal_id: LedgerJournalId,
    /// Context of the trace that spawned the job.
    pub tracing_data: Vec<(String, String)>,
}

impl PopulateOutboxJobConfig {
    pub fn new(account_id: AccountId, journal_id: LedgerJournalId, tracing_data: Vec<(String, String)>) -> (c: Self)
        ensures
            c.account_id == account_id,
            c.journal_id == journal_id,
            c.tracing_data == tracing_data,
    {
        PopulateOutboxJobConfig { account_id, journal_id, tracing_data }
    }

    /// The handler's job id: its journal's id, so that each journal has one
    /// handler.
    pub fn job_id(&self) -> (id: u128)
        ensures
            id == self.journal_id,
    {
        self.journal_id
    }
}

/// Why the job service refused to create a job.
#[derive(Clone, Copy, Debug, PartialEq, Eq, Structural)]
pub enum JobCreateError {
    /// A job of this type with this id exists already.
    DuplicateUniqueJobType,
    Other,
}

/// Creating an account's handler succeeds when one exists already.
pub fn handler_spawned(r: Result<(), JobCreateError>) -> (ok: bool)
    ensures
        ok == (r is Ok || r == Err::<(), JobCreateError>(JobCreateError::DuplicateUniqueJobType)),
{
    match r {
        Ok(()) => true,
        Err(JobCreateError::DuplicateUniqueJobType) => true,
        Err(JobCreateError::Other) => false,
    }
}

} // verus!
