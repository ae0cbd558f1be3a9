//! The decisions of a wallet's sync: which unsynced transactions are taken
//! now, which of their outputs are change, when what they paid in or spent
//! settles, what each posting carries, and whether another sync must follow.
use vstd::prelude::*;

use crate::ledger::event::UtxoSettledMeta;
use crate::ledger::templates::shared_meta::{ChangeOutput, WalletTransactionSummary};
use crate::ledger::templates::spend_detected::{SpendDetectedMeta, SpendDetectedParams};
use crate::ledger::templates::utxo_detected::{UtxoDetectedMeta, UtxoDetectedParams};
use crate::ledger::wallet_accounts::WalletLedgerAccountIds;
use crate::primitives::{
    AccountId, BlockTime, KeychainId, KeychainKind, LedgerJournalId, LedgerTransactionId, OutPoint, Satoshis,
    Txid, WalletId,
};

verus! {

/// The job's data: which wallet of which account to sync.
#[derive(Clone, Copy, Debug)]
pub struct SyncWalletData {
    pub account_id: AccountId,
    pub wallet_id: WalletId,
}

impl SyncWalletData {
    pub fn new(account_id: AccountId, wallet_id: WalletId) -> (d: Self)
        ensures
            d.account_id == account_id,
            d.wallet_id == wallet_id,
    {
        SyncWalletData { account_id, wallet_id }
    }
}

/// Counts of what a sync found.
#[derive(Clone, Copy, Debug)]
pub struct InstrumentationTrackers {
    pub n_pending_utxos: usize,
    pub n_confirmed_utxos: usize,
    pub n_found_txs: usize,
}

impl InstrumentationTrackers {
    pub fn new() -> (t: Self)
        ensures
            t.n_pending_utxos == 0,
            t.n_confirmed_utxos == 0,
            t.n_found_txs == 0,
    {
        InstrumentationTrackers { n_pending_utxos: 0, n_confirmed_utxos: 0, n_found_txs: 0 }
    }
}

/// How many transactions one sync takes on at most; when it reaches that,
/// another sync follows.
pub const MAX_TXS_PER_SYNC: usize = 100;

/// Whether another sync must follow this one.
pub fn has_more(trackers: &InstrumentationTrackers) -> (r: bool)
    ensures
        r == (trackers.n_found_txs >= MAX_TXS_PER_SYNC),
{
    trackers.n_found_txs >= MAX_TXS_PER_SYNC
}

/// The scan of a keychain's unsynced transactions: what it counted, and the
/// transactions it skips for now.
#[derive(Debug)]
pub struct TxScan {
    pub trackers: InstrumentationTrackers,
    pub txs_to_skip: Vec<Txid>,
}

/// What to do with an unsynced transaction.
#[derive(Clone, Copy, Debug, PartialEq, Eq, Structural)]
pub enum UnsyncedTxDecision {
    /// Some of the UTXOs it spends are not known yet: skip it until they are.
    Skip,
    /// Take it on; it spends UTXOs of the wallet when `spend_tx`.
    Process { spend_tx: bool },
}

/// Whether the handling of a transaction reaches the check of the limit on
/// transactions per sync: it is taken on, and it is unconfirmed or it is a
/// spend whose settlement is handled right away.
pub open spec fn reaches_limit_check(decision: UnsyncedTxDecision, confirmation: Option<BlockTime>, latest_change_settle_height: u32) -> bool {
    match decision {
        UnsyncedTxDecision::Skip => false,
        UnsyncedTxDecision::Process { spend_tx } => match confirmation {
            None => true,
            Some(t) => spend_tx && t.height <= latest_change_settle_height,
        },
    }
}

impl TxScan {
    pub fn new(trackers: InstrumentationTrackers) -> (s: Self)
        ensures
            s.trackers == trackers,
            s.txs_to_skip@.len() == 0,
    {
        TxScan { trackers, txs_to_skip: Vec::new() }
    }

    /// Takes on an unsynced transaction with `n_inputs` inputs of the wallet,
    /// of which `n_known_inputs` are UTXOs already known: a transaction that
    /// spends any UTXO not yet known is skipped for now; taking one on clears
    /// the skipped ones, which are then looked at again.
    pub fn on_unsynced_tx(&mut self, tx_id: Txid, n_inputs: usize, n_known_inputs: usize) -> (d: UnsyncedTxDecision)
        requires
            old(self).trackers.n_found_txs < usize::MAX,
        ensures
            final(self).trackers == (InstrumentationTrackers { n_found_txs: (old(self).trackers.n_found_txs + 1) as usize, ..old(self).trackers }),
            n_inputs > 0 && n_known_inputs != n_inputs ==> {
                &&& d == UnsyncedTxDecision::Skip
                &&& final(self).txs_to_skip@ == old(self).txs_to_skip@.push(tx_id)
            },
            !(n_inputs > 0 && n_known_inputs != n_inputs) ==> {
                &&& d == UnsyncedTxDecision::Process { spend_tx: n_inputs > 0 }
                &&& final(self).txs_to_skip@.len() == 0
            },
    {
        self.trackers.n_found_txs = self.trackers.n_found_txs + 1;
        let spend_tx = n_inputs > 0;
        if spend_tx && n_known_inputs != n_inputs {
            self.txs_to_skip.push(tx_id);
            return UnsyncedTxDecision::Skip;
        }
        self.txs_to_skip.clear();
        UnsyncedTxDecision::Process { spend_tx }
    }

    /// Whether the scan stops after the transaction it was last given, as
    /// its handling ends: the limit on transactions per sync is looked at
    /// only when the handling runs to its end. A skipped transaction, and a
    /// confirmed one that settles no spend now (it spends nothing, or it is
    /// not yet deep enough for change to settle), go on to the next
    /// transaction without that check.
    pub fn stop_after(&self, decision: UnsyncedTxDecision, confirmation: Option<BlockTime>, latest_change_settle_height: u32) -> (r: bool)
        ensures
            r == (reaches_limit_check(decision, confirmation, latest_change_settle_height)
                && self.trackers.n_found_txs >= MAX_TXS_PER_SYNC),
    {
        let checked = match decision {
            UnsyncedTxDecision::Skip => false,
            UnsyncedTxDecision::Process { spend_tx } => match confirmation {
                None => true,
                Some(t) => spend_tx && t.height <= latest_change_settle_height,
            },
        };
        checked && self.trackers.n_found_txs >= MAX_TXS_PER_SYNC
    }

    /// Whether the scan stops after the transaction just taken on.
    pub fn should_stop(&self) -> (r: bool)
        ensures
            r == (self.trackers.n_found_txs >= MAX_TXS_PER_SYNC),
    {
        self.trackers.n_found_txs >= MAX_TXS_PER_SYNC
    }
}

/// An output of an unsynced transaction paying to the wallet.
#[derive(Clone, Copy, Debug, PartialEq, Eq, Structural)]
pub struct SyncedOutput {
    pub outpoint: OutPoint,
    pub satoshis: u64,
    pub keychain: KeychainKind,
    pub is_spent: bool,
    /// The derivation index of its address.
    pub path: u32,
}

pub open spec fn is_change(o: SyncedOutput) -> bool {
    o.keychain == KeychainKind::Internal
}

/// Splits a transaction's outputs into change (on the internal keychain)
/// and income, each in the order given.
pub fn split_outputs(outputs: Vec<SyncedOutput>) -> (r: (Vec<SyncedOutput>, Vec<SyncedOutput>))
    ensures
        r.0@ == outputs@.filter(|o: SyncedOutput| is_change(o)),
        r.1@ == outputs@.filter(|o: SyncedOutput| !is_change(o)),
{
    let mut change: Vec<SyncedOutput> = Vec::new();
    let mut income: Vec<SyncedOutput> = Vec::new();
    let mut i: usize = 0;
    while i < outputs.len()
        invariant
            i <= outputs.len(),
            change@ == outputs@.take(i as int).filter(|o: SyncedOutput| is_change(o)),
            income@ == outputs@.take(i as int).filter(|o: SyncedOutput| !is_change(o)),
        decreases outputs.len() - i,
    {
        let o = outputs[i];
        proof {
            assert(outputs@.take(i + 1).drop_last() =~= outputs@.take(i as int));
            reveal(Seq::filter);
        }
        match o.keychain {
            KeychainKind::Internal => change.push(o),
            KeychainKind::External => income.push(o),
        }
        i = i + 1;
    }
    assert(outputs@.take(outputs.len() as int) =~= outputs@);
    (change, income)
}

/// The confirmation at which something confirmed settles: once its height is
/// at most the latest height that counts as settled.
pub open spec fn settles_at(confirmation: Option<BlockTime>, latest_settle_height: u32) -> Option<BlockTime> {
    match confirmation {
        Some(t) => if t.height <= latest_settle_height { Some(t) } else { None },
        None => None,
    }
}

/// When a detected UTXO settles right away.
pub fn settle_now(confirmation: Option<BlockTime>, latest_settle_height: u32) -> (r: Option<BlockTime>)
    ensures
        r == settles_at(confirmation, latest_settle_height),
        r is Some <==> (confirmation matches Some(t) && t.height <= latest_settle_height),
        r is Some ==> r == confirmation,
{
    match confirmation {
        Some(t) => if t.height <= latest_settle_height { Some(t) } else { None },
        None => None,
    }
}

/// When a transaction just synced settles its spend right away: only a
/// confirmed spend, deep enough for change to settle.
pub fn spend_settles_now(confirmation: Option<BlockTime>, spend_tx: bool, latest_change_settle_height: u32) -> (r: Option<BlockTime>)
    ensures
        r == if spend_tx { settles_at(confirmation, latest_change_settle_height) } else { None },
        r is Some <==> (spend_tx && (confirmation matches Some(t) && t.height <= latest_change_settle_height)),
        r is Some ==> r == confirmation,
{
    if !spend_tx {
        return None;
    }
    settle_now(confirmation, latest_change_settle_height)
}

/// The first change output, if any.
pub fn first_change(outputs: &Vec<SyncedOutput>) -> (r: Option<SyncedOutput>)
    ensures
        r == (if outputs@.filter(|o: SyncedOutput| is_change(o)).len() > 0 {
            Some(outputs@.filter(|o: SyncedOutput| is_change(o))[0])
        } else {
            None
        }),
{
    let mut i: usize = 0;
    while i < outputs.len()
        invariant
            i <= outputs.len(),
            outputs@.take(i as int).filter(|o: SyncedOutput| is_change(o)).len() == 0,
        decreases outputs.len() - i,
    {
        proof {
            assert(outputs@.take(i + 1).drop_last() =~= outputs@.take(i as int));
            reveal(Seq::filter);
        }
        if let KeychainKind::Internal = outputs[i].keychain {
            proof {
                lemma_filter_prefix_first(outputs@, i as int);
            }
            return Some(outputs[i]);
        }
        i = i + 1;
    }
    assert(outputs@.take(outputs.len() as int) =~= outputs@);
    None
}

/// When the first change output is at `i`, it heads the change outputs.
proof fn lemma_filter_prefix_first(s: Seq<SyncedOutput>, i: int)
    requires
        0 <= i < s.len(),
        is_change(s[i]),
        s.take(i).filter(|o: SyncedOutput| is_change(o)).len() == 0,
    ensures
        s.filter(|o: SyncedOutput| is_change(o)).len() > 0,
        s.filter(|o: SyncedOutput| is_change(o))[0] == s[i],
    decreases s.len(),
{
    reveal(Seq::filter);
    if i < s.len() - 1 {
        let d = s.drop_last();
        assert(d.take(i) =~= s.take(i));
        assert(d[i] == s[i]);
        lemma_filter_prefix_first(d, i);
        assert(s.filter(|o: SyncedOutput| is_change(o)).len() >= d.filter(|o: SyncedOutput| is_change(o)).len());
        if is_change(s.last()) {
            assert(s.filter(|o: SyncedOutput| is_change(o)) =~= d.filter(|o: SyncedOutput| is_change(o)).push(s.last()));
        } else {
            assert(s.filter(|o: SyncedOutput| is_change(o)) =~= d.filter(|o: SyncedOutput| is_change(o)));
        }
    } else {
        assert(s.drop_last() =~= s.take(i));
    }
}

/// The parameters that post a UTXO detected in a wallet: on the wallet's
/// incoming and fee accounts, with spending fees encumbered for it.
pub fn utxo_detected_params(
    journal_id: LedgerJournalId,
    ledger_account_ids: &WalletLedgerAccountIds,
    data: &SyncWalletData,
    keychain_id: KeychainId,
    output: &SyncedOutput,
    address: String,
    fees_to_encumber: Satoshis,
    confirmation_time: Option<BlockTime>,
) -> (p: UtxoDetectedParams)
    requires
        output.satoshis <= i64::MAX,
    ensures
        p.journal_id == journal_id,
        p.onchain_incoming_account_id == ledger_account_ids.onchain_incoming_id,
        p.effective_incoming_account_id == ledger_account_ids.effective_incoming_id,
        p.onchain_fee_account_id == ledger_account_ids.fee_id,
        p.meta.account_id == data.account_id,
        p.meta.wallet_id == data.wallet_id,
        p.meta.keychain_id == keychain_id,
        p.meta.outpoint == output.outpoint,
        p.meta.satoshis == output.satoshis,
        p.meta.address@ == address@,
        p.meta.encumbered_spending_fees@ == seq![(output.outpoint, fees_to_encumber)],
        p.meta.confirmation_time == confirmation_time,
{
    let mut fees = Vec::new();
    fees.push((output.outpoint, fees_to_encumber));
    assert(fees@ =~= seq![(output.outpoint, fees_to_encumber)]);
    UtxoDetectedParams {
        journal_id,
        onchain_incoming_account_id: ledger_account_ids.onchain_incoming_id,
        effective_incoming_account_id: ledger_account_ids.effective_incoming_id,
        onchain_fee_account_id: ledger_account_ids.fee_id,
        meta: UtxoDetectedMeta {
            account_id: data.account_id,
            wallet_id: data.wallet_id,
            keychain_id,
            outpoint: output.outpoint,
            satoshis: output.satoshis as i64,
            address,
            encumbered_spending_fees: fees,
            confirmation_time,
        },
    }
}

/// The parameters that settle a UTXO.
#[derive(Clone, Debug)]
pub struct UtxoSettledParams {
    pub journal_id: LedgerJournalId,
    pub ledger_account_ids: WalletLedgerAccountIds,
    pub pending_id: LedgerTransactionId,
    pub meta: UtxoSettledMeta,
}

/// What the store of UTXOs reports of a UTXO it settled.
#[derive(Clone, Debug)]
pub struct SettledUtxo {
    pub utxo_detected_ledger_tx_id: LedgerTransactionId,
    pub utxo_settled_ledger_tx_id: LedgerTransactionId,
    pub spend_detected_ledger_tx_id: Option<LedgerTransactionId>,
    pub value: Satoshis,
    pub address: String,
}

/// The parameters that settle a UTXO, correlated with its detection; a UTXO
/// whose spend was already detected says so.
pub fn utxo_settled_params(
    journal_id: LedgerJournalId,
    ledger_account_ids: WalletLedgerAccountIds,
    data: &SyncWalletData,
    keychain_id: KeychainId,
    outpoint: OutPoint,
    confirmation_time: BlockTime,
    utxo: SettledUtxo,
) -> (p: UtxoSettledParams)
    ensures
        p.journal_id == journal_id,
        p.ledger_account_ids == ledger_account_ids,
        p.pending_id == utxo.utxo_detected_ledger_tx_id,
        p.meta.account_id == data.account_id,
        p.meta.wallet_id == data.wallet_id,
        p.meta.keychain_id == keychain_id,
        p.meta.confirmation_time == confirmation_time,
        p.meta.satoshis == utxo.value,
        p.meta.outpoint == outpoint,
        p.meta.address == utxo.address,
        p.meta.already_spent_tx_id == utxo.spend_detected_ledger_tx_id,
{
    UtxoSettledParams {
        journal_id,
        ledger_account_ids,
        pending_id: utxo.utxo_detected_ledger_tx_id,
        meta: UtxoSettledMeta {
            account_id: data.account_id,
            wallet_id: data.wallet_id,
            keychain_id,
            confirmation_time,
            satoshis: utxo.value,
            outpoint,
            address: utxo.address,
            already_spent_tx_id: utxo.spend_detected_ledger_tx_id,
        },
    }
}

/// What a spend of the wallet's UTXOs is known by when detected.
#[derive(Clone, Debug)]
pub struct DetectedSpend {
    pub bitcoin_tx_id: Txid,
    pub total_utxo_in_sats: Satoshis,
    pub fee_sats: Satoshis,
    pub confirmation_time: Option<BlockTime>,
}

/// The change outputs of a spend, each with the address it pays to.
pub open spec fn change_outputs(change: Seq<(SyncedOutput, String)>) -> Seq<ChangeOutput> {
    change.map_values(|c: (SyncedOutput, String)| ChangeOutput { outpoint: c.0.outpoint, address: c.1, satoshis: c.0.satoshis as i64 })
}

/// The parameters that post a spend of the wallet's UTXOs that no batch of
/// this service made: spending fees are encumbered for each change output,
/// and what the spent UTXOs had settled and what their spend allocated are
/// recorded.
pub fn spend_detected_params(
    journal_id: LedgerJournalId,
    ledger_account_ids: WalletLedgerAccountIds,
    reserved_fees: Satoshis,
    data: &SyncWalletData,
    keychain_id: KeychainId,
    spend: DetectedSpend,
    settled_sats: Satoshis,
    allocations: Vec<(OutPoint, Satoshis)>,
    change: Vec<(SyncedOutput, String)>,
    fees_to_encumber: Satoshis,
) -> (p: SpendDetectedParams)
    requires
        forall|i: int| 0 <= i < change@.len() ==> (#[trigger] change@[i]).0.satoshis <= i64::MAX,
    ensures
        p.journal_id == journal_id,
        p.ledger_account_ids == ledger_account_ids,
        p.reserved_fees == reserved_fees,
        p.meta.encumbered_spending_fees@ == change@.map_values(|c: (SyncedOutput, String)| (c.0.outpoint, fees_to_encumber)),
        p.meta.withdraw_from_effective_when_settled@ == allocations@,
        p.meta.tx_summary.account_id == data.account_id,
        p.meta.tx_summary.wallet_id == data.wallet_id,
        p.meta.tx_summary.current_keychain_id == keychain_id,
        p.meta.tx_summary.bitcoin_tx_id == spend.bitcoin_tx_id,
        p.meta.tx_summary.total_utxo_in_sats == spend.total_utxo_in_sats,
        p.meta.tx_summary.total_utxo_settled_in_sats == settled_sats,
        p.meta.tx_summary.fee_sats == spend.fee_sats,
        p.meta.tx_summary.change_utxos@.len() == change@.len(),
        forall|i: int| 0 <= i < change@.len() ==> {
            &&& (#[trigger] p.meta.tx_summary.change_utxos@[i]).outpoint == change@[i].0.outpoint
            &&& p.meta.tx_summary.change_utxos@[i].address@ == change@[i].1@
            &&& p.meta.tx_summary.change_utxos@[i].satoshis == change@[i].0.satoshis
        },
        p.meta.confirmation_time == spend.confirmation_time,
{
    let mut fees: Vec<(OutPoint, Satoshis)> = Vec::new();
    let mut change_utxos: Vec<ChangeOutput> = Vec::new();
    let ghost all = change@;
    let mut change = change;
    let n = change.len();
    let mut i: usize = 0;
    while i < n
        invariant
            i <= n,
            n == all.len(),
            change@ == all.skip(i as int),
            forall|k: int| 0 <= k < all.len() ==> (#[trigger] all[k]).0.satoshis <= i64::MAX,
            fees@ == all.take(i as int).map_values(|c: (SyncedOutput, String)| (c.0.outpoint, fees_to_encumber)),
            change_utxos@.len() == i,
            forall|k: int| 0 <= k < i ==> {
                &&& (#[trigger] change_utxos@[k]).outpoint == all[k].0.outpoint
                &&& change_utxos@[k].address@ == all[k].1@
                &&& change_utxos@[k].satoshis == all[k].0.satoshis
            },
        decreases n - i,
    {
        assert(change@[0] == all[i as int]);
        let (o, address) = change.remove(0);
        assert(change@ =~= all.skip(i + 1));
        fees.push((o.outpoint, fees_to_encumber));
        proof {
            assert(all.take(i + 1).map_values(|c: (SyncedOutput, String)| (c.0.outpoint, fees_to_encumber))
                =~= all.take(i as int).map_values(|c: (SyncedOutput, String)| (c.0.outpoint, fees_to_encumber)).push((o.outpoint, fees_to_encumber)));
        }
        change_utxos.push(ChangeOutput { outpoint: o.outpoint, address, satoshis: o.satoshis as i64 });
        i = i + 1;
    }
    assert(all.take(n as int) =~= all);
    SpendDetectedParams {
        journal_id,
        ledger_account_ids,
        reserved_fees,
        meta: SpendDetectedMeta {
            encumbered_spending_fees: fees,
            tx_summary: WalletTransactionSummary {
                account_id: data.account_id,
                wallet_id: data.wallet_id,
                current_keychain_id: keychain_id,
                bitcoin_tx_id: spend.bitcoin_tx_id,
                total_utxo_in_sats: spend.total_utxo_in_sats,
                total_utxo_settled_in_sats: settled_sats,
                fee_sats: spend.fee_sats,
                change_utxos,
            },
            withdraw_from_effective_when_settled: allocations,
            confirmation_time: spend.confirmation_time,
        },
    }
}

} // verus!
