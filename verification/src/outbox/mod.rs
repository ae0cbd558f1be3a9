//! Per-account streams of events derived from the ledger, numbered without gaps.
use vstd::prelude::*;

pub mod event;
pub mod listener;
pub mod sequences;
pub mod augmentation;

verus! {

/// How many events a listener caches, and reads from storage at a time.
pub const DEFAULT_BUFFER_SIZE: usize = 100;

} // verus!
