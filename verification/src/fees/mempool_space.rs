//! Fee estimates of mempool.space.
use vstd::prelude::*;

use crate::primitives::TxPriority;

verus! {

/// Where mempool.space is reached, how long a request may take (in
/// seconds), and how often it is retried.
#[derive(Clone, Debug)]
pub struct MempoolSpaceConfig {
    pub url: String,
    pub timeout: u64,
    pub number_of_retries: u32,
}

fn default_url() -> (s: String)
    ensures
        s@ == "https://mempool.tk7.mempool.space"@,
{
    String::from_str("https://mempool.tk7.mempool.space")
}

fn default_timeout() -> (t: u64)
    ensures
        t == 3,
{
    3
}

fn default_number_of_retries() -> (n: u32)
    ensures
        n == 2,
{
    2
}

impl Default for MempoolSpaceConfig {
    fn default() -> (c: Self)
        ensures
            c.url@ == "https://mempool.tk7.mempool.space"@,
            c.timeout == 3,
            c.number_of_retries == 2,
    {
        MempoolSpaceConfig { url: default_url(), timeout: default_timeout(), number_of_retries: default_number_of_retries() }
    }
}

/// The fees mempool.space recommends, in satoshis per virtual byte.
#[derive(Clone, Copy, Debug, PartialEq, Eq, Structural)]
pub struct RecommendedFees {
    pub fastest_fee: u64,
    pub half_hour_fee: u64,
    pub hour_fee: u64,
}

/// The recommended fee for a priority.
pub open spec fn recommended_fee_for(fees: RecommendedFees, priority: TxPriority) -> u64 {
    match priority {
        TxPriority::NextBlock => fees.fastest_fee,
        TxPriority::HalfHour => fees.half_hour_fee,
        TxPriority::OneHour => fees.hour_fee,
    }
}

#[derive(Clone, Debug)]
pub struct MempoolSpaceClient {
    config: MempoolSpaceConfig,
}

impl MempoolSpaceClient {
    pub closed spec fn config(&self) -> MempoolSpaceConfig {
        self.config
    }

    pub fn new(config: MempoolSpaceConfig) -> (c: Self)
        ensures
            c.config() == config,
    {
        MempoolSpaceClient { config }
    }

    /// The address of the recommended fees.
    pub fn fees_url(&self) -> (u: String)
        ensures
            u@ == self.config().url@ + "/api/v1/fees/recommended"@,
    {
        let mut u = self.config.url.clone();
        u.append("/api/v1/fees/recommended");
        u
    }

    /// How long a request may take, in seconds.
    pub fn timeout(&self) -> (t: u64)
        ensures
            t == self.config().timeout,
    {
        self.config.timeout
    }

    /// How often a failed request is retried.
    pub fn number_of_retries(&self) -> (n: u32)
        ensures
            n == self.config().number_of_retries,
    {
        self.config.number_of_retries
    }

    /// The recommended fee for a priority, in satoshis per virtual byte.
    pub fn fee_for_priority(fees: &RecommendedFees, priority: TxPriority) -> (f: u64)
        ensures
            f == recommended_fee_for(*fees, priority),
            priority == TxPriority::NextBlock ==> f == fees.fastest_fee,
            priority == TxPriority::HalfHour ==> f == fees.half_hour_fee,
            priority == TxPriority::OneHour ==> f == fees.hour_fee,
    {
        match priority {
            TxPriority::HalfHour => fees.half_hour_fee,
            TxPriority::OneHour => fees.hour_fee,
            TxPriority::NextBlock => fees.fastest_fee,
        }
    }
}

} // verus!
