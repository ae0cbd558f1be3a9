//! When a batch's transaction is broadcast.
use vstd::prelude::*;

use crate::primitives::{AccountId, BatchId};

verus! {

/// The job's data: which batch of which account to broadcast.
#[derive(Clone, Copy, Debug)]
pub struct BatchBroadcastingData {
    pub account_id: AccountId,
    pub batch_id: BatchId,
}

/// A batch's transaction is broadcast once every wallet's part of it is
/// accounted for and it is signed.
pub fn should_broadcast(accounting_complete: bool, has_signed_tx: bool) -> (r: bool)
    ensures
        r == (accounting_complete && has_signed_tx),
{
    accounting_complete && has_signed_tx
}

} // verus!
