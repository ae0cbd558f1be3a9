//! The decisions of a batch's signing round: what each signing session's
//! attempt leaves behind, and how the round ends.
use vstd::prelude::*;

use crate::primitives::{AccountId, BatchId};

verus! {

/// The job's data: which batch of which account to sign.
#[derive(Clone, Debug)]
pub struct BatchSigningData {
    pub account_id: AccountId,
    pub batch_id: BatchId,
    /// Context of the trace that spawned the job.
    pub tracing_data: Vec<(String, String)>,
}

/// What an attempt at a signing session came to.
#[derive(Clone, Copy, Debug, PartialEq, Eq, Structural)]
pub enum SessionAttempt {
    /// No remote signer is configured for the session's key.
    SignerConfigMissing,
    /// The remote signer could not be reached.
    ClientFailed,
    /// The remote signer refused or failed to sign.
    SigningFailed,
    Signed,
}

/// What a round of signing attempts has seen so far.
#[derive(Clone, Copy, Debug, PartialEq, Eq, Structural)]
pub struct SigningRound {
    /// Some session lacks a signer: the round cannot complete by itself.
    pub stalled: bool,
    /// The key of the session whose attempt failed last, if any did.
    pub last_error: Option<u128>,
    /// Some session was attempted, so the sessions must be stored again.
    pub any_updated: bool,
}

/// The round after a session's attempt.
pub open spec fn after_attempt(r: SigningRound, xpub_id: u128, a: SessionAttempt) -> SigningRound {
    match a {
        SessionAttempt::SignerConfigMissing => SigningRound { stalled: true, any_updated: true, ..r },
        SessionAttempt::ClientFailed | SessionAttempt::SigningFailed => SigningRound {
            last_error: Some(xpub_id),
            any_updated: true,
            ..r
        },
        SessionAttempt::Signed => SigningRound { any_updated: true, ..r },
    }
}

impl SigningRound {
    pub fn new() -> (r: Self)
        ensures
            r == (SigningRound { stalled: false, last_error: None, any_updated: false }),
    {
        SigningRound { stalled: false, last_error: None, any_updated: false }
    }

    /// Takes in the attempt at the session of key `xpub_id`.
    pub fn record(&mut self, xpub_id: u128, a: SessionAttempt)
        ensures
            *final(self) == after_attempt(*old(self), xpub_id, a),
    {
        self.any_updated = true;
        match a {
            SessionAttempt::SignerConfigMissing => {
                self.stalled = true;
            },
            SessionAttempt::ClientFailed | SessionAttempt::SigningFailed => {
                self.last_error = Some(xpub_id);
            },
            SessionAttempt::Signed => {},
        }
    }
}

/// What finalizing the combined signatures came to.
#[derive(Clone, Copy, Debug, PartialEq, Eq, Structural)]
pub enum Finalization {
    /// A finalized transaction.
    Finalized,
    /// Not enough signatures yet.
    NotFinalized,
    Failed,
}

/// How a signing round ends.
#[derive(Clone, Copy, Debug, PartialEq, Eq, Structural)]
pub enum SigningOutcome {
    /// The batch is signed: store the transaction and broadcast it.
    Complete,
    /// Not signed yet; the job ends and is run again later.
    Incomplete,
    /// Fail with the last attempt's error.
    LastError,
    /// Fail with the finalization's error.
    FinalizationError,
}

/// How a signing round ends, and the finalization status it reports (none
/// when nothing was signed): with no signature at all, on the last error if
/// any; otherwise a finalized transaction completes the batch, else the last
/// error is returned, else it waits for more signatures.
pub open spec fn round_outcome(any_signed: bool, finalization: Finalization, r: SigningRound) -> (SigningOutcome, Option<Seq<char>>) {
    if !any_signed {
        if r.last_error is Some {
            (SigningOutcome::LastError, None)
        } else {
            (SigningOutcome::Incomplete, None)
        }
    } else if finalization == Finalization::Finalized {
        (SigningOutcome::Complete, Some("complete"@))
    } else if r.last_error is Some {
        (SigningOutcome::LastError, Some("returning_last_error"@))
    } else if finalization == Finalization::NotFinalized {
        (SigningOutcome::Incomplete, Some("stalled_due_to_finalization"@))
    } else if r.stalled {
        (SigningOutcome::Incomplete, Some("stalled"@))
    } else {
        (SigningOutcome::FinalizationError, Some("errored"@))
    }
}

pub open spec fn text_of(t: Option<&'static str>) -> Option<Seq<char>> {
    match t {
        Some(s) => Some(s@),
        None => None,
    }
}

/// How a signing round ends; `finalization` is what finalizing the combined
/// signatures came to, when `any_signed`.
pub fn signing_outcome(any_signed: bool, finalization: Finalization, r: &SigningRound) -> (o: (SigningOutcome, Option<&'static str>))
    ensures
        (o.0, text_of(o.1)) == round_outcome(any_signed, finalization, *r),
{
    if !any_signed {
        if r.last_error.is_some() {
            (SigningOutcome::LastError, None)
        } else {
            (SigningOutcome::Incomplete, None)
        }
    } else {
        match finalization {
            Finalization::Finalized => (SigningOutcome::Complete, Some("complete")),
            _ => {
                if r.last_error.is_some() {
                    (SigningOutcome::LastError, Some("returning_last_error"))
                } else {
                    match finalization {
                        Finalization::NotFinalized => (SigningOutcome::Incomplete, Some("stalled_due_to_finalization")),
                        _ => {
                            if r.stalled {
                                (SigningOutcome::Incomplete, Some("stalled"))
                            } else {
                                (SigningOutcome::FinalizationError, Some("errored"))
                            }
                        },
                    }
                }
            },
        }
    }
}

} // verus!
