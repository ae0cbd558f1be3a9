//! The job that builds a batch for a group of payouts.
use vstd::prelude::*;

use crate::primitives::{AccountId, BatchId};

verus! {

/// The job's data: which batch group of which account to process, and the
/// id the batch it builds will have.
#[derive(Clone, Debug)]
pub struct ProcessBatchGroupData {
    pub batch_group_id: u128,
    pub account_id: AccountId,
    pub batch_id: BatchId,
    /// Context of the trace that spawned the job.
    pub tracing_data: Vec<(String, String)>,
}

} // verus!
