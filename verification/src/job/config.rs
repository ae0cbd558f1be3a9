//! How often the periodic jobs run, and how long signing is retried.
use vstd::prelude::*;

verus! {

/// Delays of the periodic jobs, in seconds, and the signing job's retries.
#[derive(Clone, Copy, Debug)]
pub struct JobsConfig {
    pub sync_all_wallets_delay: u64,
    pub process_all_payout_queues_delay: u64,
    pub respawn_all_outbox_handlers_delay: u64,
    pub signing: SigningJobConfig,
}

/// How the signing of a batch is retried: after how many attempts failures
/// are warned about, how many attempts are made at most, and the longest
/// delay between two, in seconds.
#[derive(Clone, Copy, Debug)]
pub struct SigningJobConfig {
    pub warn_retries: u32,
    pub max_attempts: u32,
    pub max_retry_delay: u64,
}

pub fn default_sync_all_wallets_delay() -> (d: u64)
    ensures
        d == 5,
{
    5
}

pub fn default_process_all_payout_queues_delay() -> (d: u64)
    ensures
        d == 2,
{
    2
}

pub fn default_respawn_all_outbox_handlers_delay() -> (d: u64)
    ensures
        d == 5,
{
    5
}

/// About eight minutes of retries.
pub fn default_signing_warn_retries() -> (n: u32)
    ensures
        n == 9,
{
    9
}

/// About ninety minutes of retries.
pub fn default_signing_max_attempts() -> (n: u32)
    ensures
        n == 25,
{
    25
}

pub fn default_signing_max_retry_delay() -> (d: u64)
    ensures
        d == 300,
{
    300
}

impl Default for SigningJobConfig {
    fn default() -> (c: Self)
        ensures
            c.warn_retries == 9,
            c.max_attempts == 25,
            c.max_retry_delay == 300,
    {
        SigningJobConfig {
            warn_retries: default_signing_warn_retries(),
            max_attempts: default_signing_max_attempts(),
            max_retry_delay: default_signing_max_retry_delay(),
        }
    }
}

impl Default for JobsConfig {
    fn default() -> (c: Self)
        ensures
            c.sync_all_wallets_delay == 5,
            c.process_all_payout_queues_delay == 2,
            c.respawn_all_outbox_handlers_delay == 5,
            c.signing.warn_retries == 9,
            c.signing.max_attempts == 25,
            c.signing.max_retry_delay == 300,
    {
        JobsConfig {
            sync_all_wallets_delay: default_sync_all_wallets_delay(),
            process_all_payout_queues_delay: default_process_all_payout_queues_delay(),
            respawn_all_outbox_handlers_delay: default_respawn_all_outbox_handlers_delay(),
            signing: SigningJobConfig::default(),
        }
    }
}

} // verus!
