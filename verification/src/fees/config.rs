//! Where fee estimates are asked for.
use vstd::prelude::*;

use super::blockstream::BlockstreamConfig;
use super::mempool_space::MempoolSpaceConfig;

verus! {

#[derive(Clone, Debug)]
pub struct FeesConfig {
    pub mempool_space: MempoolSpaceConfig,
    pub blockstream: BlockstreamConfig,
}

impl Default for FeesConfig {
    fn default() -> (c: Self)
        ensures
            c.mempool_space.url@ == "https://mempool.tk7.mempool.space"@,
            c.mempool_space.timeout == 3,
            c.mempool_space.number_of_retries == 2,
            c.blockstream.url@ == "https://blockstream.info"@,
            c.blockstream.timeout == 3,
            c.blockstream.number_of_retries == 2,
    {
        FeesConfig { mempool_space: MempoolSpaceConfig::default(), blockstream: BlockstreamConfig::default() }
    }
}

} // verus!
