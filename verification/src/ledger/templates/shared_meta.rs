//! Metadata that several postings carry.
use vstd::prelude::*;

use crate::primitives::{
    AccountId, BatchId, KeychainId, OutPoint, PayoutId, PayoutQueueId, ProfileId, Satoshis,
    Txid, WalletId,
};

verus! {

/// Fees set aside for spending given outputs, by output.
pub type EncumberedSpendingFees = Vec<(OutPoint, Satoshis)>;

/// A change output of a wallet's transaction.
#[derive(Clone, Debug)]
pub struct ChangeOutput {
    pub outpoint: OutPoint,
    pub address: String,
    pub satoshis: Satoshis,
}

/// What a transaction did to one wallet.
#[derive(Clone, Debug)]
pub struct WalletTransactionSummary {
    pub account_id: AccountId,
    pub wallet_id: WalletId,
    pub current_keychain_id: KeychainId,
    pub bitcoin_tx_id: Txid,
    pub total_utxo_in_sats: Satoshis,
    pub total_utxo_settled_in_sats: Satoshis,
    pub fee_sats: Satoshis,
    pub change_utxos: Vec<ChangeOutput>,
}

/// Where a payout goes.
#[derive(Clone, Debug, PartialEq, Eq)]
pub enum PayoutDestination {
    OnchainAddress { value: String },
}

/// A payout that a batch includes.
#[derive(Clone, Debug)]
pub struct PayoutInfo {
    pub id: PayoutId,
    pub profile_id: ProfileId,
    pub satoshis: Satoshis,
    pub destination: PayoutDestination,
}

/// The batch a wallet's transaction belongs to.
#[derive(Clone, Debug)]
pub struct BatchWalletInfo {
    pub account_id: AccountId,
    pub payout_queue_id: PayoutQueueId,
    pub batch_id: BatchId,
    pub wallet_id: WalletId,
    pub included_payouts: Vec<PayoutInfo>,
}

/// Sum of the amounts of a list of fees.
pub open spec fn fees_total(fees: Seq<(OutPoint, Satoshis)>) -> int
    decreases fees.len(),
{
    if fees.len() == 0 {
        0
    } else {
        fees_total(fees.drop_last()) + fees.last().1
    }
}

/// Sum of the amounts of a list of change outputs.
pub open spec fn change_total(outputs: Seq<ChangeOutput>) -> int
    decreases outputs.len(),
{
    if outputs.len() == 0 {
        0
    } else {
        change_total(outputs.drop_last()) + outputs.last().satoshis
    }
}

pub proof fn lemma_fees_total_bound(fees: Seq<(OutPoint, Satoshis)>)
    ensures
        -(fees.len() as int) * 0x8000_0000_0000_0000 <= fees_total(fees) <= (fees.len() as int) * 0x8000_0000_0000_0000,
    decreases fees.len(),
{
    if fees.len() > 0 {
        lemma_fees_total_bound(fees.drop_last());
    }
}

pub proof fn lemma_change_total_bound(outputs: Seq<ChangeOutput>)
    ensures
        -(outputs.len() as int) * 0x8000_0000_0000_0000 <= change_total(outputs) <= (outputs.len() as int) * 0x8000_0000_0000_0000,
    decreases outputs.len(),
{
    if outputs.len() > 0 {
        lemma_change_total_bound(outputs.drop_last());
    }
}

/// Total of the fees, in satoshis.
pub fn sum_fees(fees: &Vec<(OutPoint, Satoshis)>) -> (total: i128)
    ensures
        total == fees_total(fees@),
        fees@.len() <= usize::MAX,
{
    let mut total: i128 = 0;
    let mut i: usize = 0;
    while i < fees.len()
        invariant
            i <= fees.len(),
            total == fees_total(fees@.take(i as int)),
        decreases fees.len() - i,
    {
        proof {
            assert(fees@.take(i + 1).drop_last() =~= fees@.take(i as int));
            lemma_fees_total_bound(fees@.take(i as int));
            assert(fees@.len() <= usize::MAX);
        }
        total = total + fees[i].1 as i128;
        i = i + 1;
    }
    assert(fees@.take(fees.len() as int) =~= fees@);
    total
}

/// Total of the change outputs' amounts, in satoshis.
pub fn sum_change(outputs: &Vec<ChangeOutput>) -> (total: i128)
    ensures
        total == change_total(outputs@),
        outputs@.len() <= usize::MAX,
{
    let mut total: i128 = 0;
    let mut i: usize = 0;
    while i < outputs.len()
        invariant
            i <= outputs.len(),
            total == change_total(outputs@.take(i as int)),
        decreases outputs.len() - i,
    {
        proof {
            assert(outputs@.take(i + 1).drop_last() =~= outputs@.take(i as int));
            lemma_change_total_bound(outputs@.take(i as int));
            assert(outputs@.len() <= usize::MAX);
        }
        total = total + outputs[i].satoshis as i128;
        i = i + 1;
    }
    assert(outputs@.take(outputs.len() as int) =~= outputs@);
    total
}

} // verus!
