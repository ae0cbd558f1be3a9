//! The job that posts a batch's creation for each of its wallets.
use vstd::prelude::*;

use crate::primitives::{AccountId, BatchId};

verus! {

/// The job's data: which batch of which account to process.
#[derive(Clone, Copy, Debug)]
pub struct ProcessBatchData {
    pub account_id: AccountId,
    pub batch_id: BatchId,
}

} // verus!
