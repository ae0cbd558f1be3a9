//! Before a batch's signatures are combined: every signing session must have
//! signed.
use vstd::prelude::*;

use crate::primitives::{AccountId, BatchId};

verus! {

/// The job's data: which batch of which account to finalize.
#[derive(Clone, Copy, Debug)]
pub struct BatchFinalizingData {
    pub account_id: AccountId,
    pub batch_id: BatchId,
}

/// Why a batch cannot be finalized.
#[derive(Clone, Copy, Debug, PartialEq, Eq, Structural)]
pub enum FinalizingError {
    /// Some signing session has no signed transaction (or there is none).
    PsbtMissingInSigningSessions,
}

/// Whether a batch's sessions can be combined: there is at least one, and
/// each has signed (`signed[i]` for the i-th session).
pub fn check_sessions_signed(signed: &Vec<bool>) -> (r: Result<(), FinalizingError>)
    ensures
        r is Ok <==> (signed@.len() > 0 && forall|i: int| 0 <= i < signed@.len() ==> signed@[i]),
        r is Err ==> r == Err::<(), FinalizingError>(FinalizingError::PsbtMissingInSigningSessions),
{
    if signed.len() == 0 {
        return Err(FinalizingError::PsbtMissingInSigningSessions);
    }
    let mut i: usize = 0;
    while i < signed.len()
        invariant
            i <= signed.len(),
            forall|k: int| 0 <= k < i ==> signed@[k],
        decreases signed.len() - i,
    {
        if !signed[i] {
            return Err(FinalizingError::PsbtMissingInSigningSessions);
        }
        i = i + 1;
    }
    Ok(())
}

} // verus!
