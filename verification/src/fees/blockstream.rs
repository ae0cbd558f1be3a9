//! Fee estimates of blockstream.info.
use vstd::prelude::*;

use crate::primitives::{spec_n_blocks, TxPriority};

verus! {

/// Where blockstream.info is reached, how long a request may take (in
/// seconds), and how often it is retried.
#[derive(Clone, Debug)]
pub struct BlockstreamConfig {
    pub url: String,
    pub timeout: u64,
    pub number_of_retries: u32,
}

fn default_url() -> (s: String)
    ensures
        s@ == "https://blockstream.info"@,
{
    String::from_str("https://blockstream.info")
}

fn default_timeout() -> (t: u64)
    ensures
        t == 3,
{
    3
}

fn default_number_of_retries() -> (n: u32)
    ensures
        n == 2,
{
    2
}

impl Default for BlockstreamConfig {
    fn default() -> (c: Self)
        ensures
            c.url@ == "https://blockstream.info"@,
            c.timeout == 3,
            c.number_of_retries == 2,
    {
        BlockstreamConfig { url: default_url(), timeout: default_timeout(), number_of_retries: default_number_of_retries() }
    }
}

/// The key of blockstream.info's estimate for a priority: its confirmation
/// target in blocks.
pub open spec fn estimate_key_for(priority: TxPriority) -> Seq<char> {
    match priority {
        TxPriority::NextBlock => "1"@,
        TxPriority::HalfHour => "3"@,
        TxPriority::OneHour => "6"@,
    }
}

/// The key of a priority's estimate is its confirmation target in blocks,
/// written as a decimal digit.
pub proof fn lemma_estimate_key_is_block_target(priority: TxPriority)
    ensures
        estimate_key_for(priority).len() == 1,
        estimate_key_for(priority)[0] as int == '0' as int + spec_n_blocks(priority),
{
    reveal_strlit("1");
    reveal_strlit("3");
    reveal_strlit("6");
}

#[derive(Clone, Debug)]
pub struct BlockstreamClient {
    config: BlockstreamConfig,
}

impl BlockstreamClient {
    pub closed spec fn config(&self) -> BlockstreamConfig {
        self.config
    }

    pub fn new(config: BlockstreamConfig) -> (c: Self)
        ensures
            c.config() == config,
    {
        BlockstreamClient { config }
    }

    /// The address of the fee estimates.
    pub fn fees_url(&self) -> (u: String)
        ensures
            u@ == self.config().url@ + "/api/fee-estimates"@,
    {
        let mut u = self.config.url.clone();
        u.append("/api/fee-estimates");
        u
    }

    /// How long a request may take, in seconds.
    pub fn timeout(&self) -> (t: u64)
        ensures
            t == self.config().timeout,
    {
        self.config.timeout
    }

    /// How often a failed request is retried.
    pub fn number_of_retries(&self) -> (n: u32)
        ensures
            n == self.config().number_of_retries,
    {
        self.config.number_of_retries
    }

    /// The key of the estimate a priority takes.
    pub fn estimate_key(priority: TxPriority) -> (k: &'static str)
        ensures
            k@ == estimate_key_for(priority),
    {
        match priority {
            TxPriority::NextBlock => "1",
            TxPriority::HalfHour => "3",
            TxPriority::OneHour => "6",
        }
    }
}

} // verus!
