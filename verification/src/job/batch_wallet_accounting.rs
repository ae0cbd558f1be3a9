//! Posting one wallet's part in a new batch: what the batch's creation
//! records for the wallet.
use vstd::prelude::*;

use super::process_payout_queue::WalletSummary;
use crate::ledger::templates::batch_created::{BatchCreatedMeta, BatchCreatedParams};
use crate::ledger::templates::shared_meta::{BatchWalletInfo, ChangeOutput, PayoutInfo, WalletTransactionSummary};
use crate::ledger::wallet_accounts::WalletLedgerAccountIds;
use crate::primitives::{AccountId, BatchId, LedgerJournalId, PayoutQueueId, Satoshis, Txid, WalletId};

verus! {

/// The job's data: which wallet's part of which batch to post.
#[derive(Clone, Debug)]
pub struct BatchWalletAccountingData {
    pub account_id: AccountId,
    pub wallet_id: WalletId,
    pub batch_id: BatchId,
    /// Context of the trace that spawned the job.
    pub tracing_data: Vec<(String, String)>,
}

/// What the batch itself contributes to a wallet's posting.
#[derive(Clone, Copy, Debug)]
pub struct BatchRecord {
    pub id: BatchId,
    pub bitcoin_tx_id: Txid,
    pub payout_queue_id: PayoutQueueId,
}

/// The parameters that post a wallet's part in a new batch: the wallet's
/// accounts and journal, the fees reserved for the UTXOs it spends, the
/// payouts it pays, and its change, when it has both a change output and a
/// change address. All it takes in counts as settled.
pub fn batch_created_params(
    data: &BatchWalletAccountingData,
    journal_id: LedgerJournalId,
    ledger_account_ids: WalletLedgerAccountIds,
    encumbered_fees: Satoshis,
    batch: BatchRecord,
    summary: WalletSummary,
    payouts: Vec<PayoutInfo>,
) -> (p: BatchCreatedParams)
    ensures
        p.journal_id == journal_id,
        p.ledger_account_ids == ledger_account_ids,
        p.encumbered_fees == encumbered_fees,
        p.meta.batch_info.account_id == data.account_id,
        p.meta.batch_info.wallet_id == data.wallet_id,
        p.meta.batch_info.batch_id == batch.id,
        p.meta.batch_info.payout_queue_id == batch.payout_queue_id,
        p.meta.batch_info.included_payouts == payouts,
        p.meta.tx_summary.account_id == data.account_id,
        p.meta.tx_summary.wallet_id == summary.wallet_id,
        p.meta.tx_summary.current_keychain_id == summary.current_keychain_id,
        p.meta.tx_summary.fee_sats == summary.fee_sats,
        p.meta.tx_summary.bitcoin_tx_id == batch.bitcoin_tx_id,
        p.meta.tx_summary.total_utxo_in_sats == summary.total_in_sats,
        p.meta.tx_summary.total_utxo_settled_in_sats == summary.total_in_sats,
        match (summary.change_outpoint, summary.change_address) {
            (Some(o), Some(a)) => p.meta.tx_summary.change_utxos@ == seq![
                ChangeOutput { outpoint: o, address: a, satoshis: summary.change_sats },
            ],
            _ => p.meta.tx_summary.change_utxos@.len() == 0,
        },
{
    let mut change_utxos: Vec<ChangeOutput> = Vec::new();
    let change_sats = summary.change_sats;
    match (summary.change_outpoint, summary.change_address) {
        (Some(outpoint), Some(address)) => {
            change_utxos.push(ChangeOutput { outpoint, address, satoshis: change_sats });
            assert(change_utxos@ =~= seq![ChangeOutput { outpoint, address, satoshis: change_sats }]);
        },
        _ => {},
    }
    BatchCreatedParams {
        journal_id,
        ledger_account_ids,
        encumbered_fees,
        meta: BatchCreatedMeta {
            batch_info: BatchWalletInfo {
                account_id: data.account_id,
                wallet_id: data.wallet_id,
                batch_id: batch.id,
                payout_queue_id: batch.payout_queue_id,
                included_payouts: payouts,
            },
            tx_summary: WalletTransactionSummary {
                account_id: data.account_id,
                wallet_id: summary.wallet_id,
                current_keychain_id: summary.current_keychain_id,
                fee_sats: summary.fee_sats,
                bitcoin_tx_id: batch.bitcoin_tx_id,
                total_utxo_in_sats: summary.total_in_sats,
                total_utxo_settled_in_sats: summary.total_in_sats,
                change_utxos,
            },
        },
    }
}

} // verus!
