//! Fee estimates of an electrum server.
use vstd::prelude::*;

use crate::primitives::{spec_n_blocks, TxPriority};

verus! {

/// How often a request to the electrum server is retried.
pub const ELECTRUM_RETRIES: u8 = 10;
/// How long a request to the electrum server may take, in seconds.
pub const ELECTRUM_TIMEOUT: u8 = 4;

pub struct ElectrumFeeEstimator {
    url: String,
}

impl ElectrumFeeEstimator {
    pub closed spec fn url(&self) -> Seq<char> {
        self.url@
    }

    pub fn new(electrum_url: String) -> (e: Self)
        ensures
            e.url() == electrum_url@,
    {
        ElectrumFeeEstimator { url: electrum_url }
    }

    /// The server's address.
    pub fn server_url(&self) -> (u: &str)
        ensures
            u@ == self.url(),
    {
        self.url.as_str()
    }

    /// The confirmation target asked for a priority, in blocks.
    pub fn target_blocks(priority: TxPriority) -> (n: u16)
        ensures
            n == spec_n_blocks(priority),
    {
        priority.n_blocks()
    }
}

} // verus!
