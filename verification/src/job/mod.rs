//! The background jobs: what they spawn, on which channels, and how they
//! take a refused spawn.
use vstd::prelude::*;

use crate::primitives::{AccountId, BatchId, PayoutQueueId, WalletId};
use crate::uuid_text::{uuid_hyphenated, uuid_to_string};
use vstd::std_specs::convert::FromSpecImpl;
use batch_broadcasting::BatchBroadcastingData;
use batch_signing::BatchSigningData;
use batch_wallet_accounting::BatchWalletAccountingData;
use process_payout_queue::ProcessPayoutQueueData;

pub mod config;
pub mod sync_wallet;
pub mod batch_signing;
pub mod batch_broadcasting;
pub mod batch_finalizing;
pub mod process_batch;
pub mod process_batch_group;
pub mod batch_wallet_signing;
pub mod process_payout_queue;
pub mod batch_wallet_accounting;

verus! {

/// The job that syncs every wallet; it exists once and spawns itself again.
pub const SYNC_ALL_WALLETS_ID: u128 = 0x00000000_0000_0000_0000_000000000001;
/// The job that runs every payout queue; it exists once and spawns itself again.
pub const PROCESS_ALL_PAYOUT_QUEUES_ID: u128 = 0x00000000_0000_0000_0000_000000000002;
/// The job that respawns every account's outbox handler; it exists once and
/// spawns itself again.
pub const RESPAWN_ALL_OUTBOX_ID: u128 = 0x00000000_0000_0000_0000_000000000003;

/// A channel argument: a name, a colon, and an id's text.
fn channel_arg(name: &str, id: u128) -> (s: String)
    ensures
        s@ == name@ + ":"@ + uuid_hyphenated(id),
{
    let mut s = String::from_str(name);
    s.append(":");
    let t = uuid_to_string(id);
    s.append(t.as_str());
    proof {
        reveal_strlit(":");
    }
    s
}

/// The argument of a payout queue's scheduling channel.
pub fn schedule_payout_queue_channel_arg(payout_queue_id: PayoutQueueId) -> (s: String)
    ensures
        s@ == "payout_queue_id:"@ + uuid_hyphenated(payout_queue_id),
{
    let s = channel_arg("payout_queue_id", payout_queue_id);
    proof {
        reveal_strlit("payout_queue_id");
        reveal_strlit("payout_queue_id:");
        reveal_strlit(":");
        assert("payout_queue_id"@ + ":"@ =~= "payout_queue_id:"@);
    }
    s
}

/// The argument of an account's main channel, on which its wallet syncs and
/// payout queue runs are ordered.
pub fn account_main_channel_arg(account_id: AccountId) -> (s: String)
    ensures
        s@ == "account_id:"@ + uuid_hyphenated(account_id),
{
    let s = channel_arg("account_id", account_id);
    proof {
        reveal_strlit("account_id");
        reveal_strlit("account_id:");
        reveal_strlit(":");
        assert("account_id"@ + ":"@ =~= "account_id:"@);
    }
    s
}

/// The argument of a wallet's accounting channel.
pub fn wallet_channel_arg(wallet_id: WalletId) -> (s: String)
    ensures
        s@ == "wallet_id:"@ + uuid_hyphenated(wallet_id),
{
    let s = channel_arg("wallet_id", wallet_id);
    proof {
        reveal_strlit("wallet_id");
        reveal_strlit("wallet_id:");
        reveal_strlit(":");
        assert("wallet_id"@ + ":"@ =~= "wallet_id:"@);
    }
    s
}

/// The argument of a batch's signing and broadcasting channels.
pub fn batch_channel_arg(batch_id: BatchId) -> (s: String)
    ensures
        s@ == "batch_id:"@ + uuid_hyphenated(batch_id),
{
    let s = channel_arg("batch_id", batch_id);
    proof {
        reveal_strlit("batch_id");
        reveal_strlit("batch_id:");
        reveal_strlit(":");
        assert("batch_id"@ + ":"@ =~= "batch_id:"@);
    }
    s
}


/// Whether `pattern` occurs in `text`.
pub open spec fn contains_text(text: Seq<char>, pattern: Seq<char>) -> bool {
    exists|i: int| 0 <= i && i + pattern.len() <= text.len() && #[trigger] text.subrange(i, i + pattern.len()) == pattern
}

/// Whether `pattern` occurs in `text`.
pub fn text_contains(text: &str, pattern: &str) -> (r: bool)
    ensures
        r == contains_text(text@, pattern@),
{
    let n = text.unicode_len();
    let m = pattern.unicode_len();
    if m > n {
        proof {
            assert forall|i: int| 0 <= i && i + pattern@.len() <= text@.len() implies #[trigger] text@.subrange(i, i + pattern@.len()) != pattern@ by {
            }
        }
        return false;
    }
    let mut i: usize = 0;
    while i <= n - m
        invariant
            n == text@.len(),
            m == pattern@.len(),
            m <= n,
            i <= n - m + 1,
            forall|k: int| 0 <= k < i ==> #[trigger] text@.subrange(k, k + m) != pattern@,
        decreases n - m + 1 - i,
    {
        let mut j: usize = 0;
        let mut same = true;
        while j < m && same
            invariant
                n == text@.len(),
                m == pattern@.len(),
                i + m <= n,
                j <= m,
                same <==> forall|q: int| 0 <= q < j ==> text@[i + q] == pattern@[q],
            decreases m - j,
        {
            if text.get_char(i + j) != pattern.get_char(j) {
                same = false;
            }
            j = j + 1;
        }
        if same {
            assert(text@.subrange(i as int, i + m) =~= pattern@);
            return true;
        }
        proof {
            let q = choose|q: int| 0 <= q < j && text@[i + q] != pattern@[q];
            assert(text@.subrange(i as int, i + m)[q] != pattern@[q]);
        }
        i = i + 1;
    }
    false
}

/// Why spawning a job failed, as the job store reports it.
#[derive(Clone, Debug)]
pub enum SpawnError {
    /// The database refused the job, with this message.
    Database(String),
    /// Anything else.
    Other,
}

/// What to do when spawning a job failed.
#[derive(Clone, Copy, Debug, PartialEq, Eq, Structural)]
pub enum SpawnDecision {
    /// The job already exists: nothing more to do.
    AlreadySpawned,
    /// The job it is ordered after is not stored yet: wait a second and try
    /// again.
    RetryAfterPause,
    /// Give up, with the error.
    Fail,
}

/// How a refused spawn is taken: a job that already exists is no error;
/// when `retry_when_predecessor_missing`, a job whose predecessor on its
/// channel is not stored yet is tried again.
pub open spec fn spawn_decision(e: SpawnError, retry_when_predecessor_missing: bool) -> SpawnDecision {
    match e {
        SpawnError::Database(m) => {
            if contains_text(m@, "duplicate key"@) {
                SpawnDecision::AlreadySpawned
            } else if retry_when_predecessor_missing && contains_text(m@, "after_message_id_fkey"@) {
                SpawnDecision::RetryAfterPause
            } else {
                SpawnDecision::Fail
            }
        },
        SpawnError::Other => SpawnDecision::Fail,
    }
}

/// How a refused spawn is taken.
pub fn on_spawn_error(e: &SpawnError, retry_when_predecessor_missing: bool) -> (d: SpawnDecision)
    ensures
        d == spawn_decision(*e, retry_when_predecessor_missing),
{
    match e {
        SpawnError::Database(m) => {
            if text_contains(m.as_str(), "duplicate key") {
                SpawnDecision::AlreadySpawned
            } else if retry_when_predecessor_missing && text_contains(m.as_str(), "after_message_id_fkey") {
                SpawnDecision::RetryAfterPause
            } else {
                SpawnDecision::Fail
            }
        },
        SpawnError::Other => SpawnDecision::Fail,
    }
}

/// The delay, in nanoseconds, after which a payout queue's run is scheduled:
/// a second before the queue is due, at once when it is due within a second.
pub fn schedule_delay(spawn_in_nanos: u128) -> (d: u128)
    ensures
        d == if spawn_in_nanos >= 1_000_000_000 { spawn_in_nanos - 1_000_000_000 } else { 0 },
{
    if spawn_in_nanos >= 1_000_000_000 {
        spawn_in_nanos - 1_000_000_000
    } else {
        0
    }
}


impl BatchWalletAccountingData {
    /// The accounting of one wallet's part in the batch a queue run built.
    pub fn for_wallet(data: &ProcessPayoutQueueData, wallet_id: WalletId, tracing_data: Vec<(String, String)>) -> (d: Self)
        ensures
            d.account_id == data.account_id,
            d.batch_id == data.batch_id,
            d.wallet_id == wallet_id,
            d.tracing_data == tracing_data,
    {
        BatchWalletAccountingData { tracing_data, account_id: data.account_id, batch_id: data.batch_id, wallet_id }
    }
}

impl BatchSigningData {
    /// The signing of a batch of an account.
    pub fn new(account_id: AccountId, batch_id: BatchId, tracing_data: Vec<(String, String)>) -> (d: Self)
        ensures
            d.account_id == account_id,
            d.batch_id == batch_id,
            d.tracing_data == tracing_data,
    {
        BatchSigningData { batch_id, account_id, tracing_data }
    }

    /// The signing of the batch a queue run built.
    pub fn for_queue_run(data: &ProcessPayoutQueueData, tracing_data: Vec<(String, String)>) -> (d: Self)
        ensures
            d.account_id == data.account_id,
            d.batch_id == data.batch_id,
            d.tracing_data == tracing_data,
    {
        BatchSigningData { account_id: data.account_id, batch_id: data.batch_id, tracing_data }
    }
}

impl From<BatchWalletAccountingData> for BatchBroadcastingData {
    fn from(data: BatchWalletAccountingData) -> (d: Self)
        ensures
            d.account_id == data.account_id,
            d.batch_id == data.batch_id,
    {
        BatchBroadcastingData { account_id: data.account_id, batch_id: data.batch_id }
    }
}

impl FromSpecImpl<BatchWalletAccountingData> for BatchBroadcastingData {
    open spec fn obeys_from_spec() -> bool {
        true
    }

    open spec fn from_spec(data: BatchWalletAccountingData) -> Self {
        BatchBroadcastingData { account_id: data.account_id, batch_id: data.batch_id }
    }
}

impl From<BatchSigningData> for BatchBroadcastingData {
    fn from(data: BatchSigningData) -> (d: Self)
        ensures
            d.account_id == data.account_id,
            d.batch_id == data.batch_id,
    {
        BatchBroadcastingData { account_id: data.account_id, batch_id: data.batch_id }
    }
}

impl FromSpecImpl<BatchSigningData> for BatchBroadcastingData {
    open spec fn obeys_from_spec() -> bool {
        true
    }

    open spec fn from_spec(data: BatchSigningData) -> Self {
        BatchBroadcastingData { account_id: data.account_id, batch_id: data.batch_id }
    }
}

} // verus!
