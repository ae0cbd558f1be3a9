//! Fee estimation: where the estimates are asked for, and which estimate a
//! transaction's priority takes.
use vstd::prelude::*;

pub mod blockstream;
pub mod mempool_space;
pub mod electrum;
pub mod client;
pub mod config;

verus! {

/// The bounds of the exponential backoff between retries of an estimate
/// request, in seconds: from a second up to half an hour.
pub fn retry_bounds() -> (b: (u64, u64))
    ensures
        b == (1u64, 1800u64),
{
    (1, 30 * 60)
}

} // verus!
