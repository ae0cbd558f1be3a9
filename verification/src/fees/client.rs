//! Fee estimates with a fallback: mempool.space first, blockstream.info when
//! that fails.
use vstd::prelude::*;

use super::blockstream::BlockstreamClient;
use super::config::FeesConfig;
use super::mempool_space::MempoolSpaceClient;

verus! {

#[derive(Clone, Debug)]
pub struct FeesClient {
    mempool_space: MempoolSpaceClient,
    blockstream: BlockstreamClient,
}

impl FeesClient {
    pub closed spec fn mempool_space_spec(&self) -> MempoolSpaceClient {
        self.mempool_space
    }

    pub closed spec fn blockstream_spec(&self) -> BlockstreamClient {
        self.blockstream
    }

    pub fn new(config: FeesConfig) -> (c: Self)
        ensures
            c.mempool_space_spec().config() == config.mempool_space,
            c.blockstream_spec().config() == config.blockstream,
    {
        FeesClient {
            mempool_space: MempoolSpaceClient::new(config.mempool_space),
            blockstream: BlockstreamClient::new(config.blockstream),
        }
    }

    /// The estimator asked first.
    pub fn mempool_space(&self) -> (m: &MempoolSpaceClient)
        ensures
            *m == self.mempool_space_spec(),
    {
        &self.mempool_space
    }

    /// The estimator asked when the first fails.
    pub fn blockstream(&self) -> (b: &BlockstreamClient)
        ensures
            *b == self.blockstream_spec(),
    {
        &self.blockstream
    }

    /// Whether the fallback is asked: only when the first estimator failed.
    pub fn needs_fallback<T, E>(primary: &Result<T, E>) -> (r: bool)
        ensures
            r == primary is Err,
    {
        primary.is_err()
    }
}

} // verus!
