//! The job that signs one wallet's part of a batch.
use vstd::prelude::*;

use crate::primitives::{AccountId, BatchId, WalletId};

verus! {

/// The job's data: which wallet's part of which batch to sign.
#[derive(Clone, Debug)]
pub struct BatchWalletSigningData {
    pub account_id: AccountId,
    pub batch_id: BatchId,
    pub wallet_id: WalletId,
    /// Context of the trace that spawned the job.
    pub tracing_data: Vec<(String, String)>,
}

} // verus!
