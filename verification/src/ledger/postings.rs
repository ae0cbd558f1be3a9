//! The postings that follow earlier ones: what they read back of the earlier
//! transaction (its journal, metadata and entries) and the parameters they
//! are posted with.
use vstd::prelude::*;

use super::constants::{SPENT_UTXO_SETTLED_CODE, UTXO_SETTLED_CODE};
use super::entries::{
    batch_created_accounts, find_batch_created_accounts, omnibus_account_ids, find_utxo_detected_accounts, first_account_of_type, posted_views, str_eq, utxo_detected_accounts,
    LedgerEntry, PostedEntry,
};
use super::error::LedgerError;
use super::event::{PayoutSubmittedMeta, UtxoSettledMeta};
use super::templates::batch_broadcast::{BatchBroadcastMeta, BatchBroadcastParams};
use super::templates::batch_created::{batch_created_entries, lemma_batch_created_read_back, BatchCreatedMeta, BatchCreatedParams};
use super::templates::fix_legacy_batch_created::{FixLegacyBatchCreatedParams, LedgerTxRecord};
use super::templates::shared_meta::{
    BatchWalletInfo, ChangeOutput, PayoutDestination, WalletTransactionSummary,
};
use super::templates::spend_settled::{lemma_spend_settled_settles_spend, spend_settled_entries, spend_settled_wallet_accounts, SpendSettledMeta, SpendSettledParams};
use super::templates::spend_detected::{abs, encumbered_fee_diff, lemma_spend_detected_records_spend, spend_detected_entries, spend_detected_wallet_accounts, SpendDetectedParams};
use super::templates::utxo_detected::UtxoDetectedMeta;
use super::templates::utxo_dropped::{lemma_utxo_dropped_reverses_detected, utxo_dropped_entries, UtxoDroppedMeta, UtxoDroppedParams};
use super::templates::utxo_detected::{lemma_utxo_detected_accounts_read_back, utxo_detected_entries, UtxoDetectedParams};
use super::templates::shared_meta::{change_total, fees_total};
use super::template::{account_net, is_omnibus, lemma_lookup_amount_at, lemma_lookup_id_at, lookup_id, own_accounts, param_values_of, Layer, ParamValues};
use super::entries::posted;
use super::wallet_accounts::WalletLedgerAccountIds;
use crate::primitives::{
    AccountId, BlockTime, LedgerAccountId, LedgerJournalId, LedgerTransactionId, OutPoint, PayoutId,
    PayoutQueueId, ProfileId, Satoshis, WalletId,
};

verus! {

/// What reading a stored transaction's metadata as `M` gave.
#[derive(Clone, Debug)]
pub enum MetadataRead<M> {
    Found(M),
    /// The transaction carries no metadata.
    Missing,
    /// The metadata is not an `M`.
    Mismatched,
}

/// A stored transaction: its journal and its metadata.
#[derive(Clone, Debug)]
pub struct StoredTx<M> {
    pub journal_id: LedgerJournalId,
    pub metadata: MetadataRead<M>,
}

/// What a dropped UTXO's posting records: its detection's, and which
/// transaction that was.
pub open spec fn dropped_meta(m: UtxoDetectedMeta, detected_txn_id: LedgerTransactionId) -> UtxoDroppedMeta {
    UtxoDroppedMeta {
        account_id: m.account_id,
        wallet_id: m.wallet_id,
        keychain_id: m.keychain_id,
        outpoint: m.outpoint,
        satoshis: m.satoshis,
        address: m.address,
        encumbered_spending_fees: m.encumbered_spending_fees,
        confirmation_time: m.confirmation_time,
        detected_txn_id,
    }
}

/// The parameters that drop a detected UTXO, from its detection: the same
/// journal and metadata, on the accounts the detection's entries name.
pub open spec fn utxo_dropped_result(
    detected: Option<StoredTx<UtxoDetectedMeta>>,
    entries: Seq<PostedEntry>,
    detected_txn_id: LedgerTransactionId,
) -> Result<UtxoDroppedParams, LedgerError> {
    match detected {
        None => Err(LedgerError::TransactionNotFound),
        Some(tx) => match tx.metadata {
            MetadataRead::Mismatched => Err(LedgerError::MismatchedTxMetadata),
            MetadataRead::Missing => Err(LedgerError::MissingTxMetadata),
            MetadataRead::Found(m) => match utxo_detected_accounts(entries) {
                Err(e) => Err(e),
                Ok((onchain_incoming, effective_incoming, onchain_fee)) => Ok(
                    UtxoDroppedParams {
                        journal_id: tx.journal_id,
                        onchain_incoming_account_id: onchain_incoming,
                        effective_incoming_account_id: effective_incoming,
                        onchain_fee_account_id: onchain_fee,
                        meta: dropped_meta(m, detected_txn_id),
                    },
                ),
            },
        },
    }
}

/// The parameters that drop a detected UTXO, from its detection's
/// transaction (if found) and entries.
pub fn utxo_dropped_params(
    detected: Option<StoredTx<UtxoDetectedMeta>>,
    entries: &Vec<LedgerEntry>,
    detected_txn_id: LedgerTransactionId,
) -> (r: Result<UtxoDroppedParams, LedgerError>)
    ensures
        r == utxo_dropped_result(detected, posted_views(entries@), detected_txn_id),
{
    let tx = match detected {
        None => {
            return Err(LedgerError::TransactionNotFound);
        },
        Some(tx) => tx,
    };
    let m = match tx.metadata {
        MetadataRead::Mismatched => {
            return Err(LedgerError::MismatchedTxMetadata);
        },
        MetadataRead::Missing => {
            return Err(LedgerError::MissingTxMetadata);
        },
        MetadataRead::Found(m) => m,
    };
    let (onchain_incoming, effective_incoming, onchain_fee) = match find_utxo_detected_accounts(entries) {
        Err(e) => {
            return Err(e);
        },
        Ok(a) => a,
    };
    Ok(
        UtxoDroppedParams {
            journal_id: tx.journal_id,
            onchain_incoming_account_id: onchain_incoming,
            effective_incoming_account_id: effective_incoming,
            onchain_fee_account_id: onchain_fee,
            meta: UtxoDroppedMeta {
                account_id: m.account_id,
                wallet_id: m.wallet_id,
                keychain_id: m.keychain_id,
                outpoint: m.outpoint,
                satoshis: m.satoshis,
                address: m.address,
                encumbered_spending_fees: m.encumbered_spending_fees,
                confirmation_time: m.confirmation_time,
                detected_txn_id,
            },
        },
    )
}

/// What a cancelled payout's posting records: its submission's.
#[derive(Clone, Debug)]
pub struct PayoutCancelledMeta {
    pub payout_id: PayoutId,
    pub account_id: AccountId,
    pub wallet_id: WalletId,
    pub profile_id: ProfileId,
    pub payout_queue_id: PayoutQueueId,
    pub satoshis: Satoshis,
    pub destination: PayoutDestination,
}

/// The parameters that cancel a submitted payout.
#[derive(Clone, Debug)]
pub struct PayoutCancelledParams {
    pub journal_id: LedgerJournalId,
    pub effective_outgoing_account_id: LedgerAccountId,
    pub payout_submitted_tx_id: LedgerTransactionId,
    pub meta: PayoutCancelledMeta,
}

pub open spec fn cancelled_meta(m: PayoutSubmittedMeta) -> PayoutCancelledMeta {
    PayoutCancelledMeta {
        payout_id: m.payout_id,
        account_id: m.account_id,
        wallet_id: m.wallet_id,
        profile_id: m.profile_id,
        payout_queue_id: m.payout_queue_id,
        satoshis: m.satoshis,
        destination: m.destination,
    }
}

/// The parameters that cancel a submitted payout, from its submission: the
/// same journal and metadata, on the effective outgoing account of the first
/// entry that encumbered the payout.
pub open spec fn payout_cancelled_result(
    submitted: Option<StoredTx<PayoutSubmittedMeta>>,
    entries: Seq<PostedEntry>,
    payout_submitted_tx_id: LedgerTransactionId,
) -> Result<PayoutCancelledParams, LedgerError> {
    match submitted {
        None => Err(LedgerError::TransactionNotFound),
        Some(tx) => match tx.metadata {
            MetadataRead::Mismatched => Err(LedgerError::SerdeJson),
            MetadataRead::Missing => Err(LedgerError::MissingTxMetadata),
            MetadataRead::Found(m) => match first_account_of_type(entries, "PAYOUT_SUBMITTED_LOG_OUT_ENC_CR"@) {
                None => Err(LedgerError::ExpectedEntryNotFoundInTx("Effective outgoing account ID not found")),
                Some(a) => Ok(
                    PayoutCancelledParams {
                        journal_id: tx.journal_id,
                        effective_outgoing_account_id: a,
                        payout_submitted_tx_id,
                        meta: cancelled_meta(m),
                    },
                ),
            },
        },
    }
}

/// The account of the first entry of the given type, if any.
pub fn find_first_account_of_type(entries: &Vec<LedgerEntry>, ty: &str) -> (r: Option<LedgerAccountId>)
    ensures
        r == first_account_of_type(posted_views(entries@), ty@),
{
    let ghost es = posted_views(entries@);
    assert(es.skip(0) =~= es);
    let mut i: usize = 0;
    while i < entries.len()
        invariant
            i <= entries.len(),
            es == posted_views(entries@),
            first_account_of_type(es, ty@) == first_account_of_type(es.skip(i as int), ty@),
        decreases entries.len() - i,
    {
        proof {
            assert(es.skip(i as int).drop_first() =~= es.skip(i + 1));
            assert(es.skip(i as int)[0] == es[i as int]);
        }
        if str_eq(entries[i].entry_type.as_str(), ty) {
            return Some(entries[i].account_id);
        }
        i = i + 1;
    }
    assert(es.skip(i as int).len() == 0);
    None
}

/// The first entry of a type gives the account: there is one exactly when
/// some entry has the type, and it is the account of the first such entry.
pub proof fn lemma_first_account_of_type_is_first(es: Seq<PostedEntry>, ty: Seq<char>)
    ensures
        first_account_of_type(es, ty) is None <==> forall|i: int| 0 <= i < es.len() ==> (#[trigger] es[i]).entry_type != ty,
        first_account_of_type(es, ty) matches Some(a) ==> exists|k: int|
            0 <= k < es.len() && (#[trigger] es[k]).entry_type == ty && es[k].account_id == a
                && forall|j: int| 0 <= j < k ==> (#[trigger] es[j]).entry_type != ty,
    decreases es.len(),
{
    if es.len() > 0 {
        let t = es.drop_first();
        lemma_first_account_of_type_is_first(t, ty);
        if es[0].entry_type != ty {
            if first_account_of_type(t, ty) is None {
                assert forall|i: int| 0 <= i < es.len() implies (#[trigger] es[i]).entry_type != ty by {
                    if i > 0 {
                        assert(t[i - 1] == es[i]);
                    }
                }
            } else {
                let a = first_account_of_type(t, ty)->Some_0;
                let k = choose|k: int|
                    0 <= k < t.len() && (#[trigger] t[k]).entry_type == ty && t[k].account_id == a
                        && forall|j: int| 0 <= j < k ==> (#[trigger] t[j]).entry_type != ty;
                assert(es[k + 1] == t[k]);
                assert forall|j: int| 0 <= j < k + 1 implies (#[trigger] es[j]).entry_type != ty by {
                    if j > 0 {
                        assert(t[j - 1] == es[j]);
                    }
                }
                assert(!(forall|i: int| 0 <= i < es.len() ==> (#[trigger] es[i]).entry_type != ty));
            }
        } else {
            assert(!(forall|i: int| 0 <= i < es.len() ==> (#[trigger] es[i]).entry_type != ty));
        }
    }
}

/// The parameters that cancel a submitted payout, from its submission's
/// transaction (if found) and entries.
pub fn payout_cancelled_params(
    submitted: Option<StoredTx<PayoutSubmittedMeta>>,
    entries: &Vec<LedgerEntry>,
    payout_submitted_tx_id: LedgerTransactionId,
) -> (r: Result<PayoutCancelledParams, LedgerError>)
    ensures
        r == payout_cancelled_result(submitted, posted_views(entries@), payout_submitted_tx_id),
        submitted is None ==> r == Err::<PayoutCancelledParams, LedgerError>(LedgerError::TransactionNotFound),
        r matches Ok(c) ==> {
            &&& submitted matches Some(tx)
            &&& tx.metadata matches MetadataRead::Found(m)
            &&& c.journal_id == tx.journal_id
            &&& c.payout_submitted_tx_id == payout_submitted_tx_id
            &&& c.meta.payout_id == m.payout_id
            &&& c.meta.account_id == m.account_id
            &&& c.meta.wallet_id == m.wallet_id
            &&& c.meta.profile_id == m.profile_id
            &&& c.meta.payout_queue_id == m.payout_queue_id
            &&& c.meta.satoshis == m.satoshis
            &&& c.meta.destination == m.destination
            &&& exists|k: int|
                0 <= k < entries@.len() && (#[trigger] posted_views(entries@)[k]).entry_type == "PAYOUT_SUBMITTED_LOG_OUT_ENC_CR"@
                    && posted_views(entries@)[k].account_id == c.effective_outgoing_account_id
                    && forall|j: int| 0 <= j < k ==> (#[trigger] posted_views(entries@)[j]).entry_type != "PAYOUT_SUBMITTED_LOG_OUT_ENC_CR"@
        },
        (submitted matches Some(tx) && tx.metadata matches MetadataRead::Found(m)) ==> (r is Ok <==> exists|i: int|
            0 <= i < entries@.len() && (#[trigger] posted_views(entries@)[i]).entry_type == "PAYOUT_SUBMITTED_LOG_OUT_ENC_CR"@),
{
    proof {
        lemma_first_account_of_type_is_first(posted_views(entries@), "PAYOUT_SUBMITTED_LOG_OUT_ENC_CR"@);
    }
    let tx = match submitted {
        None => {
            return Err(LedgerError::TransactionNotFound);
        },
        Some(tx) => tx,
    };
    let m = match tx.metadata {
        MetadataRead::Mismatched => {
            return Err(LedgerError::SerdeJson);
        },
        MetadataRead::Missing => {
            return Err(LedgerError::MissingTxMetadata);
        },
        MetadataRead::Found(m) => m,
    };
    let a = match find_first_account_of_type(entries, "PAYOUT_SUBMITTED_LOG_OUT_ENC_CR") {
        None => {
            return Err(LedgerError::ExpectedEntryNotFoundInTx("Effective outgoing account ID not found"));
        },
        Some(a) => a,
    };
    Ok(
        PayoutCancelledParams {
            journal_id: tx.journal_id,
            effective_outgoing_account_id: a,
            payout_submitted_tx_id,
            meta: PayoutCancelledMeta {
                payout_id: m.payout_id,
                account_id: m.account_id,
                wallet_id: m.wallet_id,
                profile_id: m.profile_id,
                payout_queue_id: m.payout_queue_id,
                satoshis: m.satoshis,
                destination: m.destination,
            },
        },
    )
}

/// The fees encumbered for each change output.
pub open spec fn fees_for_change(change: Seq<ChangeOutput>, fees: Satoshis) -> Seq<(OutPoint, Satoshis)> {
    change.map_values(|c: ChangeOutput| (c.outpoint, fees))
}

/// Encumbers the same spending fees for each change output.
pub fn encumber_fees_for_change(change: &Vec<ChangeOutput>, fees: Satoshis) -> (r: Vec<(OutPoint, Satoshis)>)
    ensures
        r@ == fees_for_change(change@, fees),
{
    let mut r: Vec<(OutPoint, Satoshis)> = Vec::new();
    let mut i: usize = 0;
    while i < change.len()
        invariant
            i <= change.len(),
            r@ == fees_for_change(change@.take(i as int), fees),
        decreases change.len() - i,
    {
        r.push((change[i].outpoint, fees));
        proof {
            assert(fees_for_change(change@.take(i + 1), fees) =~= fees_for_change(change@.take(i as int), fees).push((change@[i as int].outpoint, fees)));
        }
        i = i + 1;
    }
    assert(change@.take(change.len() as int) =~= change@);
    r
}

/// The parameters that post a broadcast batch for one wallet, from the
/// metadata of the batch's creation: spending fees are encumbered for each
/// change output; nothing is posted when the creation carries no metadata.
pub fn batch_broadcast_params(
    created: StoredTx<BatchCreatedMeta>,
    fees_to_encumber: Satoshis,
    ledger_account_ids: WalletLedgerAccountIds,
) -> (r: Result<Option<BatchBroadcastParams>, LedgerError>)
    ensures
        match created.metadata {
            MetadataRead::Mismatched => r == Err::<Option<BatchBroadcastParams>, LedgerError>(LedgerError::SerdeJson),
            MetadataRead::Missing => r == Ok::<Option<BatchBroadcastParams>, LedgerError>(None),
            MetadataRead::Found(m) => r matches Ok(Some(p)) && {
                &&& p.journal_id == created.journal_id
                &&& p.ledger_account_ids == ledger_account_ids
                &&& p.meta.batch_info == m.batch_info
                &&& p.meta.tx_summary == m.tx_summary
                &&& p.meta.encumbered_spending_fees@ == fees_for_change(m.tx_summary.change_utxos@, fees_to_encumber)
                &&& p.meta.withdraw_from_effective_when_settled@.len() == 0
            },
        },
{
    match created.metadata {
        MetadataRead::Mismatched => Err(LedgerError::SerdeJson),
        MetadataRead::Missing => Ok(None),
        MetadataRead::Found(m) => {
            let encumbered_spending_fees = encumber_fees_for_change(&m.tx_summary.change_utxos, fees_to_encumber);
            Ok(
                Some(
                    BatchBroadcastParams {
                        journal_id: created.journal_id,
                        ledger_account_ids,
                        meta: BatchBroadcastMeta {
                            batch_info: m.batch_info,
                            encumbered_spending_fees,
                            tx_summary: m.tx_summary,
                            withdraw_from_effective_when_settled: Vec::new(),
                        },
                    },
                ),
            )
        },
    }
}

/// What a spend's settlement reads of its detection's metadata.
#[derive(Clone, Debug)]
pub struct SpendDetectedSummary {
    pub batch_info: Option<BatchWalletInfo>,
    pub tx_summary: WalletTransactionSummary,
}

/// The parameters that settle a detected spend; nothing is posted when the
/// detection carries no metadata.
pub open spec fn spend_settled_result(
    detected: StoredTx<SpendDetectedSummary>,
    journal_id: LedgerJournalId,
    ledger_account_ids: WalletLedgerAccountIds,
    spend_detected_tx_id: LedgerTransactionId,
    confirmation_time: BlockTime,
    change_spent: bool,
) -> Result<Option<SpendSettledParams>, LedgerError> {
    match detected.metadata {
        MetadataRead::Mismatched => Err(LedgerError::SerdeJson),
        MetadataRead::Missing => Ok(None),
        MetadataRead::Found(s) => Ok(
            Some(
                SpendSettledParams {
                    journal_id,
                    ledger_account_ids,
                    spend_detected_tx_id,
                    change_spent,
                    meta: SpendSettledMeta {
                        batch_info: s.batch_info,
                        tx_summary: s.tx_summary,
                        confirmation_time,
                    },
                },
            ),
        ),
    }
}

/// The parameters that settle a detected spend.
pub fn spend_settled_params(
    detected: StoredTx<SpendDetectedSummary>,
    journal_id: LedgerJournalId,
    ledger_account_ids: WalletLedgerAccountIds,
    spend_detected_tx_id: LedgerTransactionId,
    confirmation_time: BlockTime,
    change_spent: bool,
) -> (r: Result<Option<SpendSettledParams>, LedgerError>)
    ensures
        r == spend_settled_result(detected, journal_id, ledger_account_ids, spend_detected_tx_id, confirmation_time, change_spent),
{
    match detected.metadata {
        MetadataRead::Mismatched => Err(LedgerError::SerdeJson),
        MetadataRead::Missing => Ok(None),
        MetadataRead::Found(s) => Ok(
            Some(
                SpendSettledParams {
                    journal_id,
                    ledger_account_ids,
                    spend_detected_tx_id,
                    change_spent,
                    meta: SpendSettledMeta { batch_info: s.batch_info, tx_summary: s.tx_summary, confirmation_time },
                },
            ),
        ),
    }
}

/// The amount allocated to an output, if the allocations name it (the first
/// that does).
pub open spec fn allocation_for(allocations: Seq<(OutPoint, Satoshis)>, outpoint: OutPoint) -> Option<Satoshis>
    decreases allocations.len(),
{
    if allocations.len() == 0 {
        None
    } else if allocations[0].0 == outpoint {
        Some(allocations[0].1)
    } else {
        allocation_for(allocations.drop_first(), outpoint)
    }
}

/// The allocation for an output is the amount of the first allocation that
/// names it, and there is none when no allocation names it.
pub proof fn lemma_allocation_is_first_naming_output(allocations: Seq<(OutPoint, Satoshis)>, outpoint: OutPoint)
    ensures
        allocation_for(allocations, outpoint) is None <==> forall|i: int|
            0 <= i < allocations.len() ==> (#[trigger] allocations[i]).0 != outpoint,
        allocation_for(allocations, outpoint) matches Some(v) ==> exists|k: int|
            0 <= k < allocations.len() && (#[trigger] allocations[k]).0 == outpoint && allocations[k].1 == v
                && forall|j: int| 0 <= j < k ==> (#[trigger] allocations[j]).0 != outpoint,
    decreases allocations.len(),
{
    if allocations.len() > 0 {
        let t = allocations.drop_first();
        lemma_allocation_is_first_naming_output(t, outpoint);
        if allocations[0].0 != outpoint {
            assert forall|i: int| 0 <= i < t.len() implies t[i] == allocations[i + 1] by {}
            if allocation_for(t, outpoint) is None {
                assert forall|i: int| 0 <= i < allocations.len() implies (#[trigger] allocations[i]).0 != outpoint by {
                    if i > 0 {
                        assert(t[i - 1] == allocations[i]);
                    }
                }
            } else {
                let v = allocation_for(t, outpoint)->Some_0;
                let k = choose|k: int|
                    0 <= k < t.len() && (#[trigger] t[k]).0 == outpoint && t[k].1 == v
                        && forall|j: int| 0 <= j < k ==> (#[trigger] t[j]).0 != outpoint;
                assert(allocations[k + 1] == t[k]);
                assert forall|j: int| 0 <= j < k + 1 implies (#[trigger] allocations[j]).0 != outpoint by {
                    if j > 0 {
                        assert(t[j - 1] == allocations[j]);
                    }
                }
                assert(t[k].0 == outpoint);
                assert(!(forall|i: int| 0 <= i < allocations.len() ==> (#[trigger] allocations[i]).0 != outpoint));
            }
        } else {
            assert(!(forall|i: int| 0 <= i < allocations.len() ==> (#[trigger] allocations[i]).0 != outpoint));
        }
    }
}

/// How a UTXO's settlement is posted: the template, and the amount to
/// withdraw from the effective at-rest account when one is set (otherwise
/// the template's default of zero applies).
#[derive(Clone, Copy, Debug, PartialEq, Eq)]
pub struct UtxoSettledPosting {
    pub code: &'static str,
    pub withdraw_from_effective_settled: Option<Satoshis>,
}

/// How a UTXO's settlement is posted: a UTXO not yet spent settles plainly;
/// one already spent settles with what its spend allocated to it taken out
/// of the effective at-rest account, zero when its spend allocated nothing
/// to it, and the template's default when the spend's allocations could not
/// be read.
pub open spec fn utxo_settled_posting_of(
    already_spent: bool,
    outpoint: OutPoint,
    spend_allocations: Option<Seq<(OutPoint, Satoshis)>>,
) -> (Seq<char>, Option<Satoshis>) {
    if !already_spent {
        (UTXO_SETTLED_CODE@, None)
    } else {
        match spend_allocations {
            None => (SPENT_UTXO_SETTLED_CODE@, None),
            Some(a) => (
                SPENT_UTXO_SETTLED_CODE@,
                Some(
                    match allocation_for(a, outpoint) {
                        Some(v) => v,
                        None => 0,
                    },
                ),
            ),
        }
    }
}

/// How a UTXO's settlement is posted; `spend_allocations` are the
/// allocations that its spend's posting recorded, when that was found and
/// read.
pub fn utxo_settled_posting(
    meta: &UtxoSettledMeta,
    spend_allocations: Option<Vec<(OutPoint, Satoshis)>>,
) -> (p: UtxoSettledPosting)
    ensures
        (p.code@, p.withdraw_from_effective_settled) == utxo_settled_posting_of(
            meta.already_spent_tx_id is Some,
            meta.outpoint,
            match spend_allocations {
                Some(a) => Some(a@),
                None => None,
            },
        ),
        meta.already_spent_tx_id is None ==> p.code@ == UTXO_SETTLED_CODE@ && p.withdraw_from_effective_settled is None,
        meta.already_spent_tx_id is Some ==> p.code@ == SPENT_UTXO_SETTLED_CODE@,
        meta.already_spent_tx_id is Some && spend_allocations is None ==> p.withdraw_from_effective_settled is None,
        meta.already_spent_tx_id is Some && spend_allocations is Some ==> {
            let a = spend_allocations->Some_0@;
            &&& p.withdraw_from_effective_settled is Some
            &&& (forall|i: int| 0 <= i < a.len() ==> (#[trigger] a[i]).0 != meta.outpoint)
                ==> p.withdraw_from_effective_settled == Some(0i64)
            &&& (exists|i: int| 0 <= i < a.len() && (#[trigger] a[i]).0 == meta.outpoint) ==> exists|k: int|
                0 <= k < a.len() && (#[trigger] a[k]).0 == meta.outpoint
                    && p.withdraw_from_effective_settled == Some(a[k].1)
                    && forall|j: int| 0 <= j < k ==> (#[trigger] a[j]).0 != meta.outpoint
        },
{
    proof {
        if spend_allocations is Some {
            lemma_allocation_is_first_naming_output(spend_allocations->Some_0@, meta.outpoint);
        }
    }
    if meta.already_spent_tx_id.is_none() {
        return UtxoSettledPosting { code: UTXO_SETTLED_CODE, withdraw_from_effective_settled: None };
    }
    match spend_allocations {
        None => UtxoSettledPosting { code: SPENT_UTXO_SETTLED_CODE, withdraw_from_effective_settled: None },
        Some(a) => {
            let mut found: Option<Satoshis> = None;
            let mut i: usize = 0;
            assert(a@.skip(0) =~= a@);
            while i < a.len() && found.is_none()
                invariant
                    i <= a.len(),
                    found is None ==> allocation_for(a@, meta.outpoint) == allocation_for(a@.skip(i as int), meta.outpoint),
                    found is Some ==> allocation_for(a@, meta.outpoint) == found,
                decreases a.len() - i,
            {
                proof {
                    assert(a@.skip(i as int).drop_first() =~= a@.skip(i + 1));
                    assert(a@.skip(i as int)[0] == a@[i as int]);
                }
                if a[i].0 == meta.outpoint {
                    found = Some(a[i].1);
                }
                i = i + 1;
            }
            proof {
                if found is None {
                    assert(a@.skip(i as int).len() == 0);
                }
            }
            let w = match found {
                Some(v) => v,
                None => 0,
            };
            UtxoSettledPosting { code: SPENT_UTXO_SETTLED_CODE, withdraw_from_effective_settled: Some(w) }
        },
    }
}


/// What a dropped batch's posting records: its creation's, and which
/// transaction that was.
#[derive(Clone, Debug)]
pub struct BatchDroppedMeta {
    pub batch_info: BatchWalletInfo,
    pub tx_summary: WalletTransactionSummary,
    pub created_txn_id: LedgerTransactionId,
}

/// The parameters that drop a created batch for one wallet.
#[derive(Clone, Debug)]
pub struct BatchDroppedParams {
    pub journal_id: LedgerJournalId,
    pub ledger_account_ids: WalletLedgerAccountIds,
    /// In satoshis.
    pub encumbered_fees: i128,
    pub meta: BatchDroppedMeta,
}

/// The parameters that drop a created batch, from its creation: the same
/// journal and metadata, on the accounts its entries name (the omnibus ones
/// where it has none), releasing the fees it encumbered.
pub open spec fn batch_dropped_result(
    created: Option<StoredTx<BatchCreatedMeta>>,
    entries: Seq<PostedEntry>,
    created_batch_tx_id: LedgerTransactionId,
) -> Result<BatchDroppedParams, LedgerError> {
    match created {
        None => Err(LedgerError::TransactionNotFound),
        Some(tx) => match tx.metadata {
            MetadataRead::Mismatched => Err(LedgerError::SerdeJson),
            MetadataRead::Missing => Err(LedgerError::MissingTxMetadata),
            MetadataRead::Found(m) => {
                let (ids, fees) = batch_created_accounts(entries, omnibus_account_ids());
                Ok(
                    BatchDroppedParams {
                        journal_id: tx.journal_id,
                        ledger_account_ids: ids,
                        encumbered_fees: fees as i128,
                        meta: BatchDroppedMeta {
                            batch_info: m.batch_info,
                            tx_summary: m.tx_summary,
                            created_txn_id: created_batch_tx_id,
                        },
                    },
                )
            },
        },
    }
}

/// The parameters that drop a created batch, from its creation's
/// transaction (if found) and entries.
pub fn batch_dropped_params(
    created: Option<StoredTx<BatchCreatedMeta>>,
    entries: &Vec<LedgerEntry>,
    created_batch_tx_id: LedgerTransactionId,
) -> (r: Result<BatchDroppedParams, LedgerError>)
    ensures
        r == batch_dropped_result(created, posted_views(entries@), created_batch_tx_id),
{
    let tx = match created {
        None => {
            return Err(LedgerError::TransactionNotFound);
        },
        Some(tx) => tx,
    };
    let m = match tx.metadata {
        MetadataRead::Mismatched => {
            return Err(LedgerError::SerdeJson);
        },
        MetadataRead::Missing => {
            return Err(LedgerError::MissingTxMetadata);
        },
        MetadataRead::Found(m) => m,
    };
    let (ledger_account_ids, encumbered_fees) = find_batch_created_accounts(entries);
    Ok(
        BatchDroppedParams {
            journal_id: tx.journal_id,
            ledger_account_ids,
            encumbered_fees,
            meta: BatchDroppedMeta { batch_info: m.batch_info, tx_summary: m.tx_summary, created_txn_id: created_batch_tx_id },
        },
    )
}

/// The fee encumbered for an output, zero when none is.
pub open spec fn fee_of(fees: Seq<(OutPoint, Satoshis)>, outpoint: OutPoint) -> int {
    match allocation_for(fees, outpoint) {
        Some(v) => v as int,
        None => 0,
    }
}

/// The metadata read of the first transaction with the given id, if any.
pub open spec fn tx_with_id<M>(txs: Seq<(LedgerTransactionId, MetadataRead<M>)>, id: LedgerTransactionId) -> Option<MetadataRead<M>>
    decreases txs.len(),
{
    if txs.len() == 0 {
        None
    } else if txs[0].0 == id {
        Some(txs[0].1)
    } else {
        tx_with_id(txs.drop_first(), id)
    }
}

/// What one requested output contributes: the fee its detection encumbered
/// for it, zero when the detection was not found or carries no metadata.
pub open spec fn reserved_fee_of(
    txs: Seq<(LedgerTransactionId, MetadataRead<Vec<(OutPoint, Satoshis)>>)>,
    request: (LedgerTransactionId, OutPoint),
) -> int {
    match tx_with_id(txs, request.0) {
        Some(MetadataRead::Found(fees)) => fee_of(fees@, request.1),
        _ => 0,
    }
}

/// The fees reserved for the requested outputs, each looked up in the
/// metadata of the transaction that detected it.
pub open spec fn reserved_fees_total(
    txs: Seq<(LedgerTransactionId, MetadataRead<Vec<(OutPoint, Satoshis)>>)>,
    requests: Seq<(LedgerTransactionId, OutPoint)>,
) -> int
    decreases requests.len(),
{
    if requests.len() == 0 {
        0
    } else {
        reserved_fees_total(txs, requests.drop_last()) + reserved_fee_of(txs, requests.last())
    }
}

pub open spec fn any_mismatched<M>(txs: Seq<(LedgerTransactionId, MetadataRead<M>)>) -> bool {
    exists|i: int| 0 <= i < txs.len() && txs[i].1 is Mismatched
}

/// The fee encumbered for an output, zero when none is.
fn find_fee(fees: &Vec<(OutPoint, Satoshis)>, outpoint: OutPoint) -> (r: i64)
    ensures
        r as int == fee_of(fees@, outpoint),
{
    let mut i: usize = 0;
    assert(fees@.skip(0) =~= fees@);
    while i < fees.len()
        invariant
            i <= fees.len(),
            allocation_for(fees@, outpoint) == allocation_for(fees@.skip(i as int), outpoint),
        decreases fees.len() - i,
    {
        proof {
            assert(fees@.skip(i as int).drop_first() =~= fees@.skip(i + 1));
            assert(fees@.skip(i as int)[0] == fees@[i as int]);
        }
        if fees[i].0 == outpoint {
            return fees[i].1;
        }
        i = i + 1;
    }
    assert(fees@.skip(i as int).len() == 0);
    0
}

/// The fees reserved for the given outputs of earlier detections: each
/// output's fee is read from the metadata of the transaction that detected
/// it (`txs`, the transactions found, by id); outputs whose detection was not
/// found or carries no metadata add nothing. Metadata that cannot be read
/// fails the whole sum.
pub fn sum_reserved_fees_in_txs(
    requests: &Vec<(LedgerTransactionId, OutPoint)>,
    txs: &Vec<(LedgerTransactionId, MetadataRead<Vec<(OutPoint, Satoshis)>>)>,
) -> (r: Result<i128, LedgerError>)
    ensures
        any_mismatched(txs@) ==> r == Err::<i128, LedgerError>(LedgerError::SerdeJson),
        !any_mismatched(txs@) ==> (r matches Ok(v) && v as int == reserved_fees_total(txs@, requests@)),
{
    let mut k: usize = 0;
    while k < txs.len()
        invariant
            k <= txs.len(),
            forall|j: int| 0 <= j < k ==> !(txs@[j].1 is Mismatched),
        decreases txs.len() - k,
    {
        if let MetadataRead::Mismatched = txs[k].1 {
            return Err(LedgerError::SerdeJson);
        }
        k = k + 1;
    }
    let mut total: i128 = 0;
    let mut i: usize = 0;
    while i < requests.len()
        invariant
            i <= requests.len(),
            total as int == reserved_fees_total(txs@, requests@.take(i as int)),
            -(i as int) * 0x8000_0000_0000_0000 <= total <= (i as int) * 0x8000_0000_0000_0000,
        decreases requests.len() - i,
    {
        let (id, outpoint) = requests[i];
        let mut j: usize = 0;
        let mut fee: i64 = 0;
        assert(txs@.skip(0) =~= txs@);
        while j < txs.len() && txs[j].0 != id
            invariant
                j <= txs.len(),
                tx_with_id(txs@, id) == tx_with_id(txs@.skip(j as int), id),
                fee == 0,
            decreases txs.len() - j,
        {
            proof {
                assert(txs@.skip(j as int).drop_first() =~= txs@.skip(j + 1));
                assert(txs@.skip(j as int)[0] == txs@[j as int]);
            }
            j = j + 1;
        }
        if j < txs.len() {
            assert(txs@.skip(j as int)[0] == txs@[j as int]);
            if let MetadataRead::Found(fees) = &txs[j].1 {
                fee = find_fee(fees, outpoint);
            }
        } else {
            assert(txs@.skip(j as int).len() == 0);
        }
        proof {
            assert(requests@.take(i + 1).drop_last() =~= requests@.take(i as int));
            assert(fee as int == reserved_fee_of(txs@, requests@[i as int]));
            assert(-0x8000_0000_0000_0000 <= fee < 0x8000_0000_0000_0000);
            assert((i as int) * 0x8000_0000_0000_0000 + 0x8000_0000_0000_0000 == (i + 1) * 0x8000_0000_0000_0000) by (nonlinear_arith);
            assert((i + 1) * 0x8000_0000_0000_0000 <= 0x1_0000_0000_0000_0000 * 0x8000_0000_0000_0000) by (nonlinear_arith)
                requires i + 1 <= 0x1_0000_0000_0000_0000;
        }
        total = total + fee as i128;
        i = i + 1;
    }
    assert(requests@.take(requests.len() as int) =~= requests@);
    Ok(total)
}

/// The ids of the transactions the requests name, each once.
pub fn detected_tx_ids(requests: &Vec<(LedgerTransactionId, OutPoint)>) -> (ids: Vec<LedgerTransactionId>)
    ensures
        forall|a: int, b: int| 0 <= a < b < ids@.len() ==> ids@[a] != ids@[b],
        forall|t: LedgerTransactionId| ids@.contains(t) <==> exists|k: int| 0 <= k < requests@.len() && requests@[k].0 == t,
{
    let mut ids: Vec<LedgerTransactionId> = Vec::new();
    let mut i: usize = 0;
    while i < requests.len()
        invariant
            i <= requests.len(),
            forall|a: int, b: int| 0 <= a < b < ids@.len() ==> ids@[a] != ids@[b],
            forall|t: LedgerTransactionId| ids@.contains(t) <==> exists|k: int| 0 <= k < i && requests@[k].0 == t,
        decreases requests.len() - i,
    {
        let t = requests[i].0;
        let mut j: usize = 0;
        let mut seen = false;
        while j < ids.len()
            invariant
                j <= ids.len(),
                seen <==> exists|q: int| 0 <= q < j && ids@[q] == t,
            decreases ids.len() - j,
        {
            if ids[j] == t {
                seen = true;
            }
            j = j + 1;
        }
        let ghost old_ids = ids@;
        if !seen {
            ids.push(t);
        }
        proof {
            assert forall|u: LedgerTransactionId| ids@.contains(u) <==> exists|k: int| 0 <= k < i + 1 && requests@[k].0 == u by {
                if ids@.contains(u) {
                    if old_ids.contains(u) {
                        let k = choose|k: int| 0 <= k < i && requests@[k].0 == u;
                        assert(0 <= k < i + 1 && requests@[k].0 == u);
                    } else {
                        assert(u == t);
                        assert(requests@[i as int].0 == u);
                    }
                }
                if exists|k: int| 0 <= k < i + 1 && requests@[k].0 == u {
                    let k = choose|k: int| 0 <= k < i + 1 && requests@[k].0 == u;
                    if k < i {
                        assert(old_ids.contains(u));
                        let q = choose|q: int| 0 <= q < old_ids.len() && old_ids[q] == u;
                        assert(ids@[q] == u);
                    } else {
                        if seen {
                            let q = choose|q: int| 0 <= q < j && old_ids[q] == t;
                            assert(ids@[q] == u);
                        } else {
                            assert(ids@[ids@.len() - 1] == u);
                        }
                    }
                }
            }
        }
        i = i + 1;
    }
    ids
}

/// A spend's settlement as the legacy fix reads it: the stored transaction,
/// whether its metadata names a batch, and its entries.
#[derive(Clone, Debug)]
pub struct SettledSpendRecord {
    pub tx: LedgerTxRecord,
    pub has_batch_info: bool,
    pub entries: Vec<LedgerEntry>,
}

/// The first entry that settled spent change with a nonzero amount.
pub open spec fn first_spent_change(es: Seq<PostedEntry>) -> Option<(LedgerAccountId, int)>
    decreases es.len(),
{
    if es.len() == 0 {
        None
    } else if es[0].entry_type == "SPEND_SETTLED_CHG_SPENT_SET_DR"@ && es[0].units != 0 {
        Some((es[0].account_id, es[0].units))
    } else {
        first_spent_change(es.drop_first())
    }
}

/// The spent change that a settled batch spend recorded, which the legacy
/// fix reverts; none for spends outside batches.
pub open spec fn fix_target(r: SettledSpendRecord) -> Option<(LedgerAccountId, int)> {
    if r.has_batch_info {
        first_spent_change(posted_views(r.entries@))
    } else {
        None
    }
}

/// The legacy fix's postings: one for each settled batch spend that
/// recorded spent change, in order.
pub open spec fn fix_postings(rs: Seq<SettledSpendRecord>) -> Seq<(LedgerTxRecord, LedgerAccountId, int)>
    decreases rs.len(),
{
    if rs.len() == 0 {
        Seq::empty()
    } else {
        let rest = fix_postings(rs.drop_last());
        match fix_target(rs.last()) {
            Some((a, u)) => rest.push((rs.last().tx, a, u)),
            None => rest,
        }
    }
}

/// The entry of a settled spend that the legacy fix reverts, if any.
fn find_spent_change(entries: &Vec<LedgerEntry>) -> (r: Option<(LedgerAccountId, i128)>)
    ensures
        match (r, first_spent_change(posted_views(entries@))) {
            (Some((a, u)), Some((b, v))) => a == b && u as int == v,
            (None, None) => true,
            _ => false,
        },
{
    let ghost es = posted_views(entries@);
    assert(es.skip(0) =~= es);
    let mut i: usize = 0;
    while i < entries.len()
        invariant
            i <= entries.len(),
            es == posted_views(entries@),
            first_spent_change(es) == first_spent_change(es.skip(i as int)),
        decreases entries.len() - i,
    {
        proof {
            assert(es.skip(i as int).drop_first() =~= es.skip(i + 1));
            assert(es.skip(i as int)[0] == es[i as int]);
            reveal_strlit("SPEND_SETTLED_CHG_SPENT_SET_DR");
        }
        if str_eq(entries[i].entry_type.as_str(), "SPEND_SETTLED_CHG_SPENT_SET_DR") && entries[i].units != 0 {
            return Some((entries[i].account_id, entries[i].units));
        }
        i = i + 1;
    }
    assert(es.skip(i as int).len() == 0);
    None
}

/// The legacy fix's postings for the given settled spends.
pub fn legacy_fix_postings(records: Vec<SettledSpendRecord>) -> (r: Vec<FixLegacyBatchCreatedParams>)
    ensures
        r@.len() == fix_postings(records@).len(),
        forall|k: int| 0 <= k < r@.len() ==> {
            &&& r@[k].tx == (#[trigger] fix_postings(records@)[k]).0
            &&& r@[k].account_id == fix_postings(records@)[k].1
            &&& r@[k].units as int == fix_postings(records@)[k].2
        },
{
    let mut r: Vec<FixLegacyBatchCreatedParams> = Vec::new();
    let mut i: usize = 0;
    while i < records.len()
        invariant
            i <= records.len(),
            r@.len() == fix_postings(records@.take(i as int)).len(),
            forall|k: int| 0 <= k < r@.len() ==> {
                &&& r@[k].tx == (#[trigger] fix_postings(records@.take(i as int))[k]).0
                &&& r@[k].account_id == fix_postings(records@.take(i as int))[k].1
                &&& r@[k].units as int == fix_postings(records@.take(i as int))[k].2
            },
        decreases records.len() - i,
    {
        proof {
            assert(records@.take(i + 1).drop_last() =~= records@.take(i as int));
        }
        let rec = &records[i];
        if rec.has_batch_info {
            match find_spent_change(&rec.entries) {
                Some((account_id, units)) => {
                    r.push(FixLegacyBatchCreatedParams { tx: rec.tx, account_id, units });
                },
                None => {},
            }
        }
        i = i + 1;
    }
    assert(records@.take(records.len() as int) =~= records@);
    r
}


/// The values a UTXO's detection is posted with (see `UtxoDetectedParams::values`).
pub open spec fn detected_values(p: UtxoDetectedParams) -> ParamValues {
    param_values_of(
        seq![
            ("journal_id", p.journal_id),
            ("onchain_incoming_account_id", p.onchain_incoming_account_id),
            ("effective_incoming_account_id", p.effective_incoming_account_id),
            ("onchain_fee_account_id", p.onchain_fee_account_id),
        ],
        seq![
            ("amount", p.meta.satoshis as i128),
            ("encumbered_spending_fees", fees_total(p.meta.encumbered_spending_fees@) as i128),
        ],
        Seq::empty(),
    )
}

/// The values a UTXO's drop is posted with (see `UtxoDroppedParams::values`).
pub open spec fn dropped_values(q: UtxoDroppedParams) -> ParamValues {
    param_values_of(
        seq![
            ("journal_id", q.journal_id),
            ("onchain_incoming_account_id", q.onchain_incoming_account_id),
            ("effective_incoming_account_id", q.effective_incoming_account_id),
            ("onchain_fee_account_id", q.onchain_fee_account_id),
        ],
        seq![
            ("amount", q.meta.satoshis as i128),
            ("encumbered_spending_fees", fees_total(q.meta.encumbered_spending_fees@) as i128),
        ],
        Seq::empty(),
    )
}

/// Dropping a detected UTXO undoes its detection: the drop read back from
/// the detection's stored entries and metadata succeeds, and its posting
/// moves every account on every layer by exactly the opposite of what the
/// detection moved it.
pub proof fn lemma_dropping_undoes_detection(
    p: UtxoDetectedParams,
    detected_txn_id: LedgerTransactionId,
    account: u128,
    layer: Layer,
)
    ensures
        ({
            let stored = StoredTx { journal_id: p.journal_id, metadata: MetadataRead::Found(p.meta) };
            let r = utxo_dropped_result(Some(stored), posted(utxo_detected_entries(), detected_values(p)), detected_txn_id);
            &&& r is Ok
            &&& account_net(utxo_dropped_entries(), account, layer, dropped_values(r->Ok_0))
                == -account_net(utxo_detected_entries(), account, layer, detected_values(p))
        }),
{
    let pv = detected_values(p);
    reveal_strlit("journal_id");
    reveal_strlit("onchain_incoming_account_id");
    reveal_strlit("effective_incoming_account_id");
    reveal_strlit("onchain_fee_account_id");
    reveal_strlit("amount");
    reveal_strlit("encumbered_spending_fees");
    lemma_utxo_detected_accounts_read_back(pv);
    reveal_with_fuel(super::template::lookup_id, 5);
    let ids = seq![
        ("journal_id", p.journal_id),
        ("onchain_incoming_account_id", p.onchain_incoming_account_id),
        ("effective_incoming_account_id", p.effective_incoming_account_id),
        ("onchain_fee_account_id", p.onchain_fee_account_id),
    ];
    assert("journal_id"@.len() == 10);
    assert("onchain_incoming_account_id"@.len() == 27);
    assert("effective_incoming_account_id"@.len() == 29);
    assert(ids[0].0@ != "onchain_incoming_account_id"@);
    assert(ids.drop_first()[0] == ids[1]);
    assert(lookup_id(ids, "onchain_incoming_account_id"@) == p.onchain_incoming_account_id);
    assert(ids[0].0@ != "effective_incoming_account_id"@);
    assert(ids[1].0@ != "effective_incoming_account_id"@);
    assert(ids.drop_first().drop_first()[0] == ids[2]);
    assert(lookup_id(ids, "effective_incoming_account_id"@) == p.effective_incoming_account_id);
    assert((pv.id)("onchain_incoming_account_id"@) == p.onchain_incoming_account_id);
    assert((pv.id)("effective_incoming_account_id"@) == p.effective_incoming_account_id);
    assert((pv.id)("onchain_fee_account_id"@) == p.onchain_fee_account_id);
    let stored = StoredTx { journal_id: p.journal_id, metadata: MetadataRead::Found(p.meta) };
    let r = utxo_dropped_result(Some(stored), posted(utxo_detected_entries(), pv), detected_txn_id);
    let q = r->Ok_0;
    assert(dropped_values(q) == pv);
    lemma_utxo_dropped_reverses_detected(account, layer, pv);
}


/// The values a wallet's part in a batch is posted with (see
/// `BatchCreatedParams::values`).
pub open spec fn created_values(p: BatchCreatedParams) -> ParamValues {
    param_values_of(
        seq![
            ("journal_id", p.journal_id),
            ("effective_outgoing_account_id", p.ledger_account_ids.effective_outgoing_id),
            ("effective_at_rest_account_id", p.ledger_account_ids.effective_at_rest_id),
            ("onchain_fee_account_id", p.ledger_account_ids.fee_id),
            ("onchain_outgoing_account_id", p.ledger_account_ids.onchain_outgoing_id),
            ("onchain_income_account_id", p.ledger_account_ids.onchain_incoming_id),
            ("onchain_at_rest_account_id", p.ledger_account_ids.onchain_at_rest_id),
            ("correlation_id", p.meta.batch_info.batch_id),
        ],
        seq![
            ("total_utxo_in", p.meta.tx_summary.total_utxo_in_sats as i128),
            ("change", change_total(p.meta.tx_summary.change_utxos@) as i128),
            ("fees", p.meta.tx_summary.fee_sats as i128),
            ("encumbered_fees", p.encumbered_fees as i128),
        ],
        Seq::empty(),
    )
}

/// Dropping a batch reads back its creation: the drop built from the
/// creation's stored entries and metadata succeeds, on the journal, wallet
/// accounts, encumbered fees and batch that the creation was posted with.
pub proof fn lemma_dropping_batch_reads_back_creation(p: BatchCreatedParams, created_batch_tx_id: LedgerTransactionId)
    ensures
        ({
            let stored = StoredTx { journal_id: p.journal_id, metadata: MetadataRead::Found(p.meta) };
            let r = batch_dropped_result(Some(stored), posted(batch_created_entries(), created_values(p)), created_batch_tx_id);
            &&& r is Ok
            &&& r->Ok_0.journal_id == p.journal_id
            &&& r->Ok_0.ledger_account_ids.effective_outgoing_id == p.ledger_account_ids.effective_outgoing_id
            &&& r->Ok_0.ledger_account_ids.effective_at_rest_id == p.ledger_account_ids.effective_at_rest_id
            &&& r->Ok_0.ledger_account_ids.fee_id == p.ledger_account_ids.fee_id
            &&& r->Ok_0.ledger_account_ids.onchain_outgoing_id == p.ledger_account_ids.onchain_outgoing_id
            &&& r->Ok_0.ledger_account_ids.onchain_incoming_id == p.ledger_account_ids.onchain_incoming_id
            &&& r->Ok_0.ledger_account_ids.onchain_at_rest_id == p.ledger_account_ids.onchain_at_rest_id
            &&& r->Ok_0.encumbered_fees == p.encumbered_fees
            &&& r->Ok_0.meta.batch_info == p.meta.batch_info
            &&& r->Ok_0.meta.tx_summary == p.meta.tx_summary
            &&& r->Ok_0.meta.created_txn_id == created_batch_tx_id
        }),
{
    let pv = created_values(p);
    lemma_batch_created_read_back(pv);
    reveal_strlit("journal_id");
    reveal_strlit("effective_outgoing_account_id");
    reveal_strlit("effective_at_rest_account_id");
    reveal_strlit("onchain_fee_account_id");
    reveal_strlit("onchain_outgoing_account_id");
    reveal_strlit("onchain_income_account_id");
    reveal_strlit("onchain_at_rest_account_id");
    reveal_strlit("correlation_id");
    reveal_strlit("total_utxo_in");
    reveal_strlit("change");
    reveal_strlit("fees");
    reveal_strlit("encumbered_fees");
    reveal_with_fuel(super::template::lookup_id, 9);
    reveal_with_fuel(super::template::lookup_amount, 5);
    assert("journal_id"@.len() == 10);
    assert("effective_outgoing_account_id"@.len() == 29);
    assert("effective_at_rest_account_id"@.len() == 28);
    assert("onchain_fee_account_id"@.len() == 22);
    assert("onchain_outgoing_account_id"@.len() == 27);
    assert("onchain_income_account_id"@.len() == 25);
    assert("onchain_at_rest_account_id"@.len() == 26);
    assert("correlation_id"@.len() == 14);
    assert("total_utxo_in"@.len() == 13);
    assert("change"@.len() == 6);
    assert("fees"@.len() == 4);
    assert("encumbered_fees"@.len() == 15);
    assert((pv.id)("effective_outgoing_account_id"@) == p.ledger_account_ids.effective_outgoing_id);
    assert((pv.id)("effective_at_rest_account_id"@) == p.ledger_account_ids.effective_at_rest_id);
    assert((pv.id)("onchain_fee_account_id"@) == p.ledger_account_ids.fee_id);
    assert((pv.id)("onchain_outgoing_account_id"@) == p.ledger_account_ids.onchain_outgoing_id);
    assert((pv.id)("onchain_income_account_id"@) == p.ledger_account_ids.onchain_incoming_id);
    assert((pv.id)("onchain_at_rest_account_id"@) == p.ledger_account_ids.onchain_at_rest_id);
    assert((pv.amount)("encumbered_fees"@) == p.encumbered_fees);
}


/// A wallet's ledger accounts are its own: none is one of the ledger's
/// omnibus accounts, and no two of them are the same account.
pub open spec fn wallet_ids_apart(ids: WalletLedgerAccountIds) -> bool {
    let s = seq![ids.onchain_incoming_id, ids.onchain_at_rest_id, ids.onchain_outgoing_id, ids.effective_incoming_id, ids.effective_at_rest_id, ids.effective_outgoing_id, ids.fee_id, ids.dust_id];
    &&& forall|i: int| 0 <= i < s.len() ==> !is_omnibus(#[trigger] s[i])
    &&& forall|i: int, j: int| 0 <= i < j < s.len() ==> #[trigger] s[i] != #[trigger] s[j]
}

/// What `wallet_ids_apart` says, account by account.
pub proof fn lemma_wallet_ids_apart(ids: WalletLedgerAccountIds)
    requires
        wallet_ids_apart(ids),
    ensures
        !is_omnibus(ids.onchain_incoming_id),
        !is_omnibus(ids.onchain_at_rest_id),
        !is_omnibus(ids.onchain_outgoing_id),
        !is_omnibus(ids.effective_incoming_id),
        !is_omnibus(ids.effective_at_rest_id),
        !is_omnibus(ids.effective_outgoing_id),
        !is_omnibus(ids.fee_id),
        !is_omnibus(ids.dust_id),
        ids.onchain_incoming_id != ids.onchain_at_rest_id,
        ids.onchain_incoming_id != ids.onchain_outgoing_id,
        ids.onchain_incoming_id != ids.effective_incoming_id,
        ids.onchain_incoming_id != ids.effective_at_rest_id,
        ids.onchain_incoming_id != ids.effective_outgoing_id,
        ids.onchain_incoming_id != ids.fee_id,
        ids.onchain_incoming_id != ids.dust_id,
        ids.onchain_at_rest_id != ids.onchain_outgoing_id,
        ids.onchain_at_rest_id != ids.effective_incoming_id,
        ids.onchain_at_rest_id != ids.effective_at_rest_id,
        ids.onchain_at_rest_id != ids.effective_outgoing_id,
        ids.onchain_at_rest_id != ids.fee_id,
        ids.onchain_at_rest_id != ids.dust_id,
        ids.onchain_outgoing_id != ids.effective_incoming_id,
        ids.onchain_outgoing_id != ids.effective_at_rest_id,
        ids.onchain_outgoing_id != ids.effective_outgoing_id,
        ids.onchain_outgoing_id != ids.fee_id,
        ids.onchain_outgoing_id != ids.dust_id,
        ids.effective_incoming_id != ids.effective_at_rest_id,
        ids.effective_incoming_id != ids.effective_outgoing_id,
        ids.effective_incoming_id != ids.fee_id,
        ids.effective_incoming_id != ids.dust_id,
        ids.effective_at_rest_id != ids.effective_outgoing_id,
        ids.effective_at_rest_id != ids.fee_id,
        ids.effective_at_rest_id != ids.dust_id,
        ids.effective_outgoing_id != ids.fee_id,
        ids.effective_outgoing_id != ids.dust_id,
        ids.fee_id != ids.dust_id,
{
    let s = seq![ids.onchain_incoming_id, ids.onchain_at_rest_id, ids.onchain_outgoing_id, ids.effective_incoming_id, ids.effective_at_rest_id, ids.effective_outgoing_id, ids.fee_id, ids.dust_id];
    assert(s[0] == ids.onchain_incoming_id);
    assert(s[1] == ids.onchain_at_rest_id);
    assert(s[2] == ids.onchain_outgoing_id);
    assert(s[3] == ids.effective_incoming_id);
    assert(s[4] == ids.effective_at_rest_id);
    assert(s[5] == ids.effective_outgoing_id);
    assert(s[6] == ids.fee_id);
    assert(s[7] == ids.dust_id);
}

/// The values a spend's detection is posted with (see
/// `SpendDetectedParams::values`).
pub open spec fn spend_detected_values(p: SpendDetectedParams) -> ParamValues {
    param_values_of(
        seq![
            ("journal_id", p.journal_id),
            ("logical_outgoing_account_id", p.ledger_account_ids.effective_outgoing_id),
            ("logical_at_rest_account_id", p.ledger_account_ids.effective_at_rest_id),
            ("onchain_fee_account_id", p.ledger_account_ids.fee_id),
            ("onchain_at_rest_account_id", p.ledger_account_ids.onchain_at_rest_id),
            ("onchain_income_account_id", p.ledger_account_ids.onchain_incoming_id),
            ("onchain_outgoing_account_id", p.ledger_account_ids.onchain_outgoing_id),
        ],
        seq![
            ("encumbered_fee_diff", abs(encumbered_fee_diff(p)) as i128),
            ("fees", p.meta.tx_summary.fee_sats as i128),
            ("total_utxo_in", p.meta.tx_summary.total_utxo_in_sats as i128),
            ("total_utxo_settled_in", p.meta.tx_summary.total_utxo_settled_in_sats as i128),
            ("logical_settled_out", (p.meta.tx_summary.total_utxo_in_sats
                - change_total(p.meta.tx_summary.change_utxos@)
                - fees_total(p.meta.withdraw_from_effective_when_settled@)) as i128),
            ("change", change_total(p.meta.tx_summary.change_utxos@) as i128),
        ],
        if encumbered_fee_diff(p) < 0 {
            seq![("encumbered_fee_credit", false)]
        } else {
            Seq::<(&'static str, bool)>::empty()
        },
    )
}

/// The values a spend's settlement is posted with (see
/// `SpendSettledParams::values`).
pub open spec fn spend_settled_values(q: SpendSettledParams) -> ParamValues {
    param_values_of(
        seq![
            ("journal_id", q.journal_id),
            ("logical_outgoing_account_id", q.ledger_account_ids.effective_outgoing_id),
            ("onchain_fee_account_id", q.ledger_account_ids.fee_id),
            ("onchain_at_rest_account_id", q.ledger_account_ids.onchain_at_rest_id),
            ("onchain_income_account_id", q.ledger_account_ids.onchain_incoming_id),
            ("onchain_outgoing_account_id", q.ledger_account_ids.onchain_outgoing_id),
            ("correlation_id", q.spend_detected_tx_id),
        ],
        seq![
            ("fees", q.meta.tx_summary.fee_sats as i128),
            ("total_utxo_in", q.meta.tx_summary.total_utxo_in_sats as i128),
            ("change", change_total(q.meta.tx_summary.change_utxos@) as i128),
        ],
        seq![("change_spent", q.change_spent)],
    )
}

/// Settling a detected spend undoes what the detection made pending and
/// settles it: the settlement read back from the detection's metadata
/// succeeds, on the same wallet; it releases from the pending layer of the
/// wallet's effective outgoing, fee, onchain outgoing and onchain incoming
/// accounts exactly what the detection put there, and puts on the settled
/// layer of the effective outgoing account what left its pending layer.
pub proof fn lemma_settling_spend_releases_what_detection_made_pending(
    p: SpendDetectedParams,
    batch_info: Option<BatchWalletInfo>,
    spend_detected_tx_id: LedgerTransactionId,
    confirmation_time: BlockTime,
    change_spent: bool,
)
    requires
        wallet_ids_apart(p.ledger_account_ids),
    ensures
        ({
            let ids = p.ledger_account_ids;
            let detected = StoredTx {
                journal_id: p.journal_id,
                metadata: MetadataRead::Found(SpendDetectedSummary { batch_info, tx_summary: p.meta.tx_summary }),
            };
            let r = spend_settled_result(detected, p.journal_id, ids, spend_detected_tx_id, confirmation_time, change_spent);
            let pd = spend_detected_values(p);
            &&& r matches Ok(Some(q))
            &&& q.ledger_account_ids == ids
            &&& account_net(spend_settled_entries(), ids.effective_outgoing_id, Layer::Pending, spend_settled_values(q))
                == -account_net(spend_detected_entries(), ids.effective_outgoing_id, Layer::Pending, pd)
            &&& account_net(spend_settled_entries(), ids.effective_outgoing_id, Layer::Settled, spend_settled_values(q))
                == account_net(spend_detected_entries(), ids.effective_outgoing_id, Layer::Pending, pd)
            &&& account_net(spend_settled_entries(), ids.fee_id, Layer::Pending, spend_settled_values(q))
                == -account_net(spend_detected_entries(), ids.fee_id, Layer::Pending, pd)
            &&& account_net(spend_settled_entries(), ids.onchain_outgoing_id, Layer::Pending, spend_settled_values(q))
                == -account_net(spend_detected_entries(), ids.onchain_outgoing_id, Layer::Pending, pd)
            &&& account_net(spend_settled_entries(), ids.onchain_incoming_id, Layer::Pending, spend_settled_values(q))
                == -account_net(spend_detected_entries(), ids.onchain_incoming_id, Layer::Pending, pd)
        }),
{
    let ids = p.ledger_account_ids;
    let detected = StoredTx {
        journal_id: p.journal_id,
        metadata: MetadataRead::Found(SpendDetectedSummary { batch_info, tx_summary: p.meta.tx_summary }),
    };
    let r = spend_settled_result(detected, p.journal_id, ids, spend_detected_tx_id, confirmation_time, change_spent);
    let q = r->Ok_0->Some_0;
    let pd = spend_detected_values(p);
    let ps = spend_settled_values(q);
    lemma_wallet_ids_apart(ids);
    reveal_strlit("change");
    reveal_strlit("correlation_id");
    reveal_strlit("encumbered_fee_diff");
    reveal_strlit("fees");
    reveal_strlit("journal_id");
    reveal_strlit("logical_at_rest_account_id");
    reveal_strlit("logical_outgoing_account_id");
    reveal_strlit("logical_settled_out");
    reveal_strlit("onchain_at_rest_account_id");
    reveal_strlit("onchain_fee_account_id");
    reveal_strlit("onchain_income_account_id");
    reveal_strlit("onchain_outgoing_account_id");
    reveal_strlit("total_utxo_in");
    reveal_strlit("total_utxo_settled_in");
    let dids = seq![
        ("journal_id", p.journal_id),
        ("logical_outgoing_account_id", p.ledger_account_ids.effective_outgoing_id),
        ("logical_at_rest_account_id", p.ledger_account_ids.effective_at_rest_id),
        ("onchain_fee_account_id", p.ledger_account_ids.fee_id),
        ("onchain_at_rest_account_id", p.ledger_account_ids.onchain_at_rest_id),
        ("onchain_income_account_id", p.ledger_account_ids.onchain_incoming_id),
        ("onchain_outgoing_account_id", p.ledger_account_ids.onchain_outgoing_id),
    ];
    let damts = seq![
        ("encumbered_fee_diff", abs(encumbered_fee_diff(p)) as i128),
        ("fees", p.meta.tx_summary.fee_sats as i128),
        ("total_utxo_in", p.meta.tx_summary.total_utxo_in_sats as i128),
        ("total_utxo_settled_in", p.meta.tx_summary.total_utxo_settled_in_sats as i128),
        ("logical_settled_out", (p.meta.tx_summary.total_utxo_in_sats
                - change_total(p.meta.tx_summary.change_utxos@)
                - fees_total(p.meta.withdraw_from_effective_when_settled@)) as i128),
        ("change", change_total(p.meta.tx_summary.change_utxos@) as i128),
    ];
    let sids = seq![
        ("journal_id", q.journal_id),
        ("logical_outgoing_account_id", q.ledger_account_ids.effective_outgoing_id),
        ("onchain_fee_account_id", q.ledger_account_ids.fee_id),
        ("onchain_at_rest_account_id", q.ledger_account_ids.onchain_at_rest_id),
        ("onchain_income_account_id", q.ledger_account_ids.onchain_incoming_id),
        ("onchain_outgoing_account_id", q.ledger_account_ids.onchain_outgoing_id),
        ("correlation_id", q.spend_detected_tx_id),
    ];
    let samts = seq![
        ("fees", q.meta.tx_summary.fee_sats as i128),
        ("total_utxo_in", q.meta.tx_summary.total_utxo_in_sats as i128),
        ("change", change_total(q.meta.tx_summary.change_utxos@) as i128),
    ];
    lemma_lookup_id_at(dids, 0, "journal_id"@);
    assert forall|j: int| 0 <= j < 1 implies (#[trigger] dids[j]).0@ != "logical_outgoing_account_id"@ by {
        if j == 0 { assert("journal_id"@ != "logical_outgoing_account_id"@) by { assert("journal_id"@[0] != "logical_outgoing_account_id"@[0]); } }
    }
    lemma_lookup_id_at(dids, 1, "logical_outgoing_account_id"@);
    assert forall|j: int| 0 <= j < 2 implies (#[trigger] dids[j]).0@ != "logical_at_rest_account_id"@ by {
        if j == 0 { assert("journal_id"@ != "logical_at_rest_account_id"@) by { assert("journal_id"@[0] != "logical_at_rest_account_id"@[0]); } }
        if j == 1 { assert("logical_outgoing_account_id"@ != "logical_at_rest_account_id"@) by { assert("logical_outgoing_account_id"@[8] != "logical_at_rest_account_id"@[8]); } }
    }
    lemma_lookup_id_at(dids, 2, "logical_at_rest_account_id"@);
    assert forall|j: int| 0 <= j < 3 implies (#[trigger] dids[j]).0@ != "onchain_fee_account_id"@ by {
        if j == 0 { assert("journal_id"@ != "onchain_fee_account_id"@) by { assert("journal_id"@[0] != "onchain_fee_account_id"@[0]); } }
        if j == 1 { assert("logical_outgoing_account_id"@ != "onchain_fee_account_id"@) by { assert("logical_outgoing_account_id"@[0] != "onchain_fee_account_id"@[0]); } }
        if j == 2 { assert("logical_at_rest_account_id"@ != "onchain_fee_account_id"@) by { assert("logical_at_rest_account_id"@[0] != "onchain_fee_account_id"@[0]); } }
    }
    lemma_lookup_id_at(dids, 3, "onchain_fee_account_id"@);
    assert forall|j: int| 0 <= j < 4 implies (#[trigger] dids[j]).0@ != "onchain_at_rest_account_id"@ by {
        if j == 0 { assert("journal_id"@ != "onchain_at_rest_account_id"@) by { assert("journal_id"@[0] != "onchain_at_rest_account_id"@[0]); } }
        if j == 1 { assert("logical_outgoing_account_id"@ != "onchain_at_rest_account_id"@) by { assert("logical_outgoing_account_id"@[0] != "onchain_at_rest_account_id"@[0]); } }
        if j == 2 { assert("logical_at_rest_account_id"@ != "onchain_at_rest_account_id"@) by { assert("logical_at_rest_account_id"@[0] != "onchain_at_rest_account_id"@[0]); } }
        if j == 3 { assert("onchain_fee_account_id"@ != "onchain_at_rest_account_id"@) by { assert("onchain_fee_account_id"@[8] != "onchain_at_rest_account_id"@[8]); } }
    }
    lemma_lookup_id_at(dids, 4, "onchain_at_rest_account_id"@);
    assert forall|j: int| 0 <= j < 5 implies (#[trigger] dids[j]).0@ != "onchain_income_account_id"@ by {
        if j == 0 { assert("journal_id"@ != "onchain_income_account_id"@) by { assert("journal_id"@[0] != "onchain_income_account_id"@[0]); } }
        if j == 1 { assert("logical_outgoing_account_id"@ != "onchain_income_account_id"@) by { assert("logical_outgoing_account_id"@[0] != "onchain_income_account_id"@[0]); } }
        if j == 2 { assert("logical_at_rest_account_id"@ != "onchain_income_account_id"@) by { assert("logical_at_rest_account_id"@[0] != "onchain_income_account_id"@[0]); } }
        if j == 3 { assert("onchain_fee_account_id"@ != "onchain_income_account_id"@) by { assert("onchain_fee_account_id"@[8] != "onchain_income_account_id"@[8]); } }
        if j == 4 { assert("onchain_at_rest_account_id"@ != "onchain_income_account_id"@) by { assert("onchain_at_rest_account_id"@[8] != "onchain_income_account_id"@[8]); } }
    }
    lemma_lookup_id_at(dids, 5, "onchain_income_account_id"@);
    assert forall|j: int| 0 <= j < 6 implies (#[trigger] dids[j]).0@ != "onchain_outgoing_account_id"@ by {
        if j == 0 { assert("journal_id"@ != "onchain_outgoing_account_id"@) by { assert("journal_id"@[0] != "onchain_outgoing_account_id"@[0]); } }
        if j == 1 { assert("logical_outgoing_account_id"@ != "onchain_outgoing_account_id"@) by { assert("logical_outgoing_account_id"@[0] != "onchain_outgoing_account_id"@[0]); } }
        if j == 2 { assert("logical_at_rest_account_id"@ != "onchain_outgoing_account_id"@) by { assert("logical_at_rest_account_id"@[0] != "onchain_outgoing_account_id"@[0]); } }
        if j == 3 { assert("onchain_fee_account_id"@ != "onchain_outgoing_account_id"@) by { assert("onchain_fee_account_id"@[8] != "onchain_outgoing_account_id"@[8]); } }
        if j == 4 { assert("onchain_at_rest_account_id"@ != "onchain_outgoing_account_id"@) by { assert("onchain_at_rest_account_id"@[8] != "onchain_outgoing_account_id"@[8]); } }
        if j == 5 { assert("onchain_income_account_id"@ != "onchain_outgoing_account_id"@) by { assert("onchain_income_account_id"@[8] != "onchain_outgoing_account_id"@[8]); } }
    }
    lemma_lookup_id_at(dids, 6, "onchain_outgoing_account_id"@);
    lemma_lookup_amount_at(damts, 0, "encumbered_fee_diff"@);
    assert forall|j: int| 0 <= j < 1 implies (#[trigger] damts[j]).0@ != "fees"@ by {
        if j == 0 { assert("encumbered_fee_diff"@ != "fees"@) by { assert("encumbered_fee_diff"@[0] != "fees"@[0]); } }
    }
    lemma_lookup_amount_at(damts, 1, "fees"@);
    assert forall|j: int| 0 <= j < 2 implies (#[trigger] damts[j]).0@ != "total_utxo_in"@ by {
        if j == 0 { assert("encumbered_fee_diff"@ != "total_utxo_in"@) by { assert("encumbered_fee_diff"@[0] != "total_utxo_in"@[0]); } }
        if j == 1 { assert("fees"@ != "total_utxo_in"@) by { assert("fees"@[0] != "total_utxo_in"@[0]); } }
    }
    lemma_lookup_amount_at(damts, 2, "total_utxo_in"@);
    assert forall|j: int| 0 <= j < 3 implies (#[trigger] damts[j]).0@ != "total_utxo_settled_in"@ by {
        if j == 0 { assert("encumbered_fee_diff"@ != "total_utxo_settled_in"@) by { assert("encumbered_fee_diff"@[0] != "total_utxo_settled_in"@[0]); } }
        if j == 1 { assert("fees"@ != "total_utxo_settled_in"@) by { assert("fees"@[0] != "total_utxo_settled_in"@[0]); } }
        if j == 2 { assert("total_utxo_in"@ != "total_utxo_settled_in"@) by { assert("total_utxo_in"@[11] != "total_utxo_settled_in"@[11]); } }
    }
    lemma_lookup_amount_at(damts, 3, "total_utxo_settled_in"@);
    assert forall|j: int| 0 <= j < 4 implies (#[trigger] damts[j]).0@ != "logical_settled_out"@ by {
        if j == 0 { assert("encumbered_fee_diff"@ != "logical_settled_out"@) by { assert("encumbered_fee_diff"@[0] != "logical_settled_out"@[0]); } }
        if j == 1 { assert("fees"@ != "logical_settled_out"@) by { assert("fees"@[0] != "logical_settled_out"@[0]); } }
        if j == 2 { assert("total_utxo_in"@ != "logical_settled_out"@) by { assert("total_utxo_in"@[0] != "logical_settled_out"@[0]); } }
        if j == 3 { assert("total_utxo_settled_in"@ != "logical_settled_out"@) by { assert("total_utxo_settled_in"@[0] != "logical_settled_out"@[0]); } }
    }
    lemma_lookup_amount_at(damts, 4, "logical_settled_out"@);
    assert forall|j: int| 0 <= j < 5 implies (#[trigger] damts[j]).0@ != "change"@ by {
        if j == 0 { assert("encumbered_fee_diff"@ != "change"@) by { assert("encumbered_fee_diff"@[0] != "change"@[0]); } }
        if j == 1 { assert("fees"@ != "change"@) by { assert("fees"@[0] != "change"@[0]); } }
        if j == 2 { assert("total_utxo_in"@ != "change"@) by { assert("total_utxo_in"@[0] != "change"@[0]); } }
        if j == 3 { assert("total_utxo_settled_in"@ != "change"@) by { assert("total_utxo_settled_in"@[0] != "change"@[0]); } }
        if j == 4 { assert("logical_settled_out"@ != "change"@) by { assert("logical_settled_out"@[0] != "change"@[0]); } }
    }
    lemma_lookup_amount_at(damts, 5, "change"@);
    lemma_lookup_id_at(sids, 0, "journal_id"@);
    assert forall|j: int| 0 <= j < 1 implies (#[trigger] sids[j]).0@ != "logical_outgoing_account_id"@ by {
        if j == 0 { assert("journal_id"@ != "logical_outgoing_account_id"@) by { assert("journal_id"@[0] != "logical_outgoing_account_id"@[0]); } }
    }
    lemma_lookup_id_at(sids, 1, "logical_outgoing_account_id"@);
    assert forall|j: int| 0 <= j < 2 implies (#[trigger] sids[j]).0@ != "onchain_fee_account_id"@ by {
        if j == 0 { assert("journal_id"@ != "onchain_fee_account_id"@) by { assert("journal_id"@[0] != "onchain_fee_account_id"@[0]); } }
        if j == 1 { assert("logical_outgoing_account_id"@ != "onchain_fee_account_id"@) by { assert("logical_outgoing_account_id"@[0] != "onchain_fee_account_id"@[0]); } }
    }
    lemma_lookup_id_at(sids, 2, "onchain_fee_account_id"@);
    assert forall|j: int| 0 <= j < 3 implies (#[trigger] sids[j]).0@ != "onchain_at_rest_account_id"@ by {
        if j == 0 { assert("journal_id"@ != "onchain_at_rest_account_id"@) by { assert("journal_id"@[0] != "onchain_at_rest_account_id"@[0]); } }
        if j == 1 { assert("logical_outgoing_account_id"@ != "onchain_at_rest_account_id"@) by { assert("logical_outgoing_account_id"@[0] != "onchain_at_rest_account_id"@[0]); } }
        if j == 2 { assert("onchain_fee_account_id"@ != "onchain_at_rest_account_id"@) by { assert("onchain_fee_account_id"@[8] != "onchain_at_rest_account_id"@[8]); } }
    }
    lemma_lookup_id_at(sids, 3, "onchain_at_rest_account_id"@);
    assert forall|j: int| 0 <= j < 4 implies (#[trigger] sids[j]).0@ != "onchain_income_account_id"@ by {
        if j == 0 { assert("journal_id"@ != "onchain_income_account_id"@) by { assert("journal_id"@[0] != "onchain_income_account_id"@[0]); } }
        if j == 1 { assert("logical_outgoing_account_id"@ != "onchain_income_account_id"@) by { assert("logical_outgoing_account_id"@[0] != "onchain_income_account_id"@[0]); } }
        if j == 2 { assert("onchain_fee_account_id"@ != "onchain_income_account_id"@) by { assert("onchain_fee_account_id"@[8] != "onchain_income_account_id"@[8]); } }
        if j == 3 { assert("onchain_at_rest_account_id"@ != "onchain_income_account_id"@) by { assert("onchain_at_rest_account_id"@[8] != "onchain_income_account_id"@[8]); } }
    }
    lemma_lookup_id_at(sids, 4, "onchain_income_account_id"@);
    assert forall|j: int| 0 <= j < 5 implies (#[trigger] sids[j]).0@ != "onchain_outgoing_account_id"@ by {
        if j == 0 { assert("journal_id"@ != "onchain_outgoing_account_id"@) by { assert("journal_id"@[0] != "onchain_outgoing_account_id"@[0]); } }
        if j == 1 { assert("logical_outgoing_account_id"@ != "onchain_outgoing_account_id"@) by { assert("logical_outgoing_account_id"@[0] != "onchain_outgoing_account_id"@[0]); } }
        if j == 2 { assert("onchain_fee_account_id"@ != "onchain_outgoing_account_id"@) by { assert("onchain_fee_account_id"@[8] != "onchain_outgoing_account_id"@[8]); } }
        if j == 3 { assert("onchain_at_rest_account_id"@ != "onchain_outgoing_account_id"@) by { assert("onchain_at_rest_account_id"@[8] != "onchain_outgoing_account_id"@[8]); } }
        if j == 4 { assert("onchain_income_account_id"@ != "onchain_outgoing_account_id"@) by { assert("onchain_income_account_id"@[8] != "onchain_outgoing_account_id"@[8]); } }
    }
    lemma_lookup_id_at(sids, 5, "onchain_outgoing_account_id"@);
    assert forall|j: int| 0 <= j < 6 implies (#[trigger] sids[j]).0@ != "correlation_id"@ by {
        if j == 0 { assert("journal_id"@ != "correlation_id"@) by { assert("journal_id"@[0] != "correlation_id"@[0]); } }
        if j == 1 { assert("logical_outgoing_account_id"@ != "correlation_id"@) by { assert("logical_outgoing_account_id"@[0] != "correlation_id"@[0]); } }
        if j == 2 { assert("onchain_fee_account_id"@ != "correlation_id"@) by { assert("onchain_fee_account_id"@[0] != "correlation_id"@[0]); } }
        if j == 3 { assert("onchain_at_rest_account_id"@ != "correlation_id"@) by { assert("onchain_at_rest_account_id"@[0] != "correlation_id"@[0]); } }
        if j == 4 { assert("onchain_income_account_id"@ != "correlation_id"@) by { assert("onchain_income_account_id"@[0] != "correlation_id"@[0]); } }
        if j == 5 { assert("onchain_outgoing_account_id"@ != "correlation_id"@) by { assert("onchain_outgoing_account_id"@[0] != "correlation_id"@[0]); } }
    }
    lemma_lookup_id_at(sids, 6, "correlation_id"@);
    lemma_lookup_amount_at(samts, 0, "fees"@);
    assert forall|j: int| 0 <= j < 1 implies (#[trigger] samts[j]).0@ != "total_utxo_in"@ by {
        if j == 0 { assert("fees"@ != "total_utxo_in"@) by { assert("fees"@[0] != "total_utxo_in"@[0]); } }
    }
    lemma_lookup_amount_at(samts, 1, "total_utxo_in"@);
    assert forall|j: int| 0 <= j < 2 implies (#[trigger] samts[j]).0@ != "change"@ by {
        if j == 0 { assert("fees"@ != "change"@) by { assert("fees"@[0] != "change"@[0]); } }
        if j == 1 { assert("total_utxo_in"@ != "change"@) by { assert("total_utxo_in"@[0] != "change"@[0]); } }
    }
    lemma_lookup_amount_at(samts, 2, "change"@);
    assert(own_accounts(pd, spend_detected_wallet_accounts()));
    assert(own_accounts(ps, spend_settled_wallet_accounts()));
    lemma_spend_detected_records_spend(pd);
    lemma_spend_settled_settles_spend(ps);
}


} // verus!
