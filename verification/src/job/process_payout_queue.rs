//! The decisions of a payout queue's run: what the batch it builds records
//! of each wallet, and which UTXOs and payouts it takes.
use vstd::prelude::*;

use crate::primitives::{AccountId, BatchId, KeychainId, OutPoint, PayoutQueueId, Satoshis, WalletId};
use crate::uuid_text::{is_random_uuid, new_random_uuid};

verus! {

/// The job's data: which payout queue of which account to run, and the id
/// the batch it builds will have.
#[derive(Clone, Debug)]
pub struct ProcessPayoutQueueData {
    pub payout_queue_id: PayoutQueueId,
    pub account_id: AccountId,
    pub batch_id: BatchId,
    /// Context of the trace that spawned the job.
    pub tracing_data: Vec<(String, String)>,
}

impl ProcessPayoutQueueData {
    /// A run of the account's payout queue, building a batch with a fresh id.
    pub fn new(account_id: AccountId, payout_queue_id: PayoutQueueId, tracing_data: Vec<(String, String)>) -> (d: Self)
        ensures
            d.account_id == account_id,
            d.payout_queue_id == payout_queue_id,
            d.tracing_data == tracing_data,
            is_random_uuid(d.batch_id),
    {
        ProcessPayoutQueueData { payout_queue_id, account_id, batch_id: new_random_uuid(), tracing_data }
    }
}

/// What building a batch's transaction totals for one wallet.
#[derive(Clone, Debug)]
pub struct WalletTotals {
    pub wallet_id: WalletId,
    pub keychains_with_inputs: Vec<KeychainId>,
    pub input_satoshis: Satoshis,
    pub output_satoshis: Satoshis,
    pub fee_satoshis: Satoshis,
    pub change_satoshis: Satoshis,
    pub change_outpoint: Option<OutPoint>,
    pub change_address: String,
    pub change_keychain_id: KeychainId,
}

/// What a batch records of one wallet's part in it.
#[derive(Clone, Debug)]
pub struct WalletSummary {
    pub wallet_id: WalletId,
    pub signing_keychains: Vec<KeychainId>,
    pub total_in_sats: Satoshis,
    pub total_spent_sats: Satoshis,
    pub fee_sats: Satoshis,
    pub change_sats: Satoshis,
    /// The change's address, when there is change.
    pub change_address: Option<String>,
    pub change_outpoint: Option<OutPoint>,
    pub current_keychain_id: KeychainId,
    pub batch_created_ledger_tx_id: Option<u128>,
    pub batch_broadcast_ledger_tx_id: Option<u128>,
}

impl WalletSummary {
    /// A wallet's part in a new batch: the change address is kept only when
    /// there is change; nothing is posted yet.
    pub fn from_totals(wt: WalletTotals) -> (s: Self)
        ensures
            s.wallet_id == wt.wallet_id,
            s.signing_keychains == wt.keychains_with_inputs,
            s.total_in_sats == wt.input_satoshis,
            s.total_spent_sats == wt.output_satoshis,
            s.fee_sats == wt.fee_satoshis,
            s.change_sats == wt.change_satoshis,
            s.change_address == (if wt.change_outpoint is Some { Some(wt.change_address) } else { None::<String> }),
            s.change_outpoint == wt.change_outpoint,
            s.current_keychain_id == wt.change_keychain_id,
            s.batch_created_ledger_tx_id is None,
            s.batch_broadcast_ledger_tx_id is None,
    {
        let change_address = match wt.change_outpoint {
            Some(_) => Some(wt.change_address),
            None => None,
        };
        WalletSummary {
            wallet_id: wt.wallet_id,
            signing_keychains: wt.keychains_with_inputs,
            total_in_sats: wt.input_satoshis,
            total_spent_sats: wt.output_satoshis,
            fee_sats: wt.fee_satoshis,
            change_sats: wt.change_satoshis,
            change_address,
            change_outpoint: wt.change_outpoint,
            current_keychain_id: wt.change_keychain_id,
            batch_created_ledger_tx_id: None,
            batch_broadcast_ledger_tx_id: None,
        }
    }
}

/// The UTXOs a batch takes, by keychain, one wallet after another.
pub open spec fn flattened(included: Seq<(KeychainId, Seq<OutPoint>)>) -> Seq<(KeychainId, OutPoint)>
    decreases included.len(),
{
    if included.len() == 0 {
        Seq::empty()
    } else {
        flattened(included.drop_last()) + included.last().1.map_values(|o: OutPoint| (included.last().0, o))
    }
}

pub open spec fn keychain_outpoints_view(v: Seq<(KeychainId, Vec<OutPoint>)>) -> Seq<(KeychainId, Seq<OutPoint>)> {
    v.map_values(|k: (KeychainId, Vec<OutPoint>)| (k.0, k.1@))
}

/// The UTXOs a batch takes, each with its keychain, in the order given.
pub fn included_utxos(included: &Vec<(KeychainId, Vec<OutPoint>)>) -> (r: Vec<(KeychainId, OutPoint)>)
    ensures
        r@ == flattened(keychain_outpoints_view(included@)),
{
    let mut r: Vec<(KeychainId, OutPoint)> = Vec::new();
    let mut i: usize = 0;
    while i < included.len()
        invariant
            i <= included.len(),
            r@ == flattened(keychain_outpoints_view(included@.take(i as int))),
        decreases included.len() - i,
    {
        let k = included[i].0;
        let outpoints = &included[i].1;
        let ghost before = r@;
        let mut j: usize = 0;
        while j < outpoints.len()
            invariant
                j <= outpoints.len(),
                r@ == before + outpoints@.take(j as int).map_values(|o: OutPoint| (k, o)),
            decreases outpoints.len() - j,
        {
            r.push((k, outpoints[j]));
            proof {
                assert(outpoints@.take(j + 1).map_values(|o: OutPoint| (k, o))
                    =~= outpoints@.take(j as int).map_values(|o: OutPoint| (k, o)).push((k, outpoints@[j as int])));
            }
            j = j + 1;
        }
        proof {
            assert(outpoints@.take(outpoints.len() as int) =~= outpoints@);
            let w = keychain_outpoints_view(included@.take(i + 1));
            assert(w.drop_last() =~= keychain_outpoints_view(included@.take(i as int)));
            assert(w.last() == (k, outpoints@));
        }
        i = i + 1;
    }
    assert(included@.take(included.len() as int) =~= included@);
    r
}


/// A queue run makes a batch only when building its transaction gave both
/// the transaction's id and the unsigned transaction.
pub fn batch_built<T, P>(tx_id: Option<T>, psbt: Option<P>) -> (r: Option<(T, P)>)
    ensures
        match (tx_id, psbt) {
            (Some(t), Some(p)) => r == Some((t, p)),
            _ => r is None,
        },
{
    match (tx_id, psbt) {
        (Some(t), Some(p)) => Some((t, p)),
        _ => None,
    }
}

} // verus!
