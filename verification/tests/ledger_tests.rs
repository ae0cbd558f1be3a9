use bria::ledger::constants::{
    BATCH_BROADCAST_ID, PAYOUT_SUBMITTED_ID, SPENT_UTXO_SETTLED_CODE, SPENT_UTXO_SETTLED_ID, UTXO_DETECTED_ID,
    UTXO_SETTLED_CODE, UTXO_SETTLED_ID,
};
use bria::ledger::entries::LedgerEntry;
use bria::ledger::error::LedgerError;
use bria::ledger::event::{
    journal_event_kind, JournalEventKind, LedgerEventData, MaybeIgnored, MetadataState, PayoutSubmittedMeta, UtxoSettledMeta,
};
use bria::ledger::postings::{
    batch_broadcast_params, batch_dropped_params, detected_tx_ids, legacy_fix_postings, payout_cancelled_params,
    spend_settled_params, sum_reserved_fees_in_txs, utxo_dropped_params, utxo_settled_posting, MetadataRead,
    SettledSpendRecord, SpendDetectedSummary, StoredTx,
};
use bria::ledger::template::{Direction, Layer};
use bria::ledger::templates::batch_created::BatchCreatedMeta;
use bria::ledger::templates::fix_legacy_batch_created::LedgerTxRecord;
use bria::ledger::templates::shared_meta::{BatchWalletInfo, ChangeOutput, PayoutDestination, WalletTransactionSummary};
use bria::ledger::templates::utxo_detected::UtxoDetectedMeta;
use bria::ledger::wallet_accounts::WalletLedgerAccountIds;
use bria::primitives::{BlockTime, OutPoint, Txid};

fn op(n: u128, vout: u32) -> OutPoint {
    OutPoint { txid: Txid { hi: 0, lo: n }, vout }
}

fn entry(ty: &str, account_id: u128, units: i128) -> LedgerEntry {
    LedgerEntry {
        transaction_id: 1,
        entry_type: ty.to_string(),
        account_id,
        direction: Direction::Debit,
        layer: Layer::Pending,
        units,
    }
}

fn detected_meta() -> UtxoDetectedMeta {
    UtxoDetectedMeta {
        account_id: 1,
        wallet_id: 2,
        keychain_id: 3,
        outpoint: op(9, 0),
        satoshis: 50_000,
        address: "bc1qd".to_string(),
        encumbered_spending_fees: vec![(op(9, 0), 300)],
        confirmation_time: None,
    }
}

fn summary(change: Vec<ChangeOutput>) -> WalletTransactionSummary {
    WalletTransactionSummary {
        account_id: 1,
        wallet_id: 2,
        current_keychain_id: 3,
        bitcoin_tx_id: Txid { hi: 1, lo: 2 },
        total_utxo_in_sats: 100_000,
        total_utxo_settled_in_sats: 100_000,
        fee_sats: 500,
        change_utxos: change,
    }
}

fn batch_info() -> BatchWalletInfo {
    BatchWalletInfo { account_id: 1, payout_queue_id: 4, batch_id: 5, wallet_id: 2, included_payouts: vec![] }
}

#[test]
fn journal_event_kinds_follow_templates() {
    assert_eq!(journal_event_kind(UTXO_DETECTED_ID), JournalEventKind::UtxoDetected);
    assert_eq!(journal_event_kind(UTXO_SETTLED_ID), JournalEventKind::UtxoSettled);
    assert_eq!(journal_event_kind(SPENT_UTXO_SETTLED_ID), JournalEventKind::UtxoSettled);
    assert_eq!(journal_event_kind(PAYOUT_SUBMITTED_ID), JournalEventKind::PayoutSubmitted);
    assert_eq!(journal_event_kind(BATCH_BROADCAST_ID), JournalEventKind::BatchBroadcast);
    assert_eq!(journal_event_kind(0xdead), JournalEventKind::UnknownTransaction);
}

#[test]
fn ledger_events_are_classified() {
    assert_eq!(MaybeIgnored::try_from_event(LedgerEventData::Other), Ok(MaybeIgnored::Ignored));
    assert_eq!(
        MaybeIgnored::try_from_event(LedgerEventData::TransactionCreated { tx_id: 3, template_id: UTXO_DETECTED_ID, metadata: MetadataState::Present }),
        Ok(MaybeIgnored::Event { ledger_tx_id: 3, kind: JournalEventKind::UtxoDetected })
    );
    assert_eq!(
        MaybeIgnored::try_from_event(LedgerEventData::TransactionCreated { tx_id: 3, template_id: UTXO_DETECTED_ID, metadata: MetadataState::Missing }),
        Err(LedgerError::MissingTxMetadata)
    );
    assert_eq!(
        MaybeIgnored::try_from_event(LedgerEventData::TransactionCreated { tx_id: 5, template_id: PAYOUT_SUBMITTED_ID, metadata: MetadataState::Undecodable }),
        Err(LedgerError::SerdeJson)
    );
    assert_eq!(
        MaybeIgnored::try_from_event(LedgerEventData::TransactionCreated { tx_id: 4, template_id: 0xdead, metadata: MetadataState::Missing }),
        Ok(MaybeIgnored::Event { ledger_tx_id: 4, kind: JournalEventKind::UnknownTransaction })
    );
    assert_eq!(
        MaybeIgnored::try_from_event(LedgerEventData::TransactionCreated { tx_id: 6, template_id: 0xdead, metadata: MetadataState::Undecodable }),
        Ok(MaybeIgnored::Event { ledger_tx_id: 6, kind: JournalEventKind::UnknownTransaction })
    );
}

#[test]
fn utxo_drop_reads_back_the_detection_accounts() {
    let entries = vec![
        entry("UTXO_DETECTED_LOG_IN_PEN_DR", 100, 50_000),
        entry("UTXO_DETECTED_LOG_IN_PEN_CR", 101, 50_000),
        entry("UTXO_DETECTED_FR_ENC_DR", 102, 300),
        entry("UTXO_DETECTED_UTX_IN_PEN_CR", 103, 50_000),
    ];
    let p = utxo_dropped_params(Some(StoredTx { journal_id: 7, metadata: MetadataRead::Found(detected_meta()) }), &entries, 88)
        .expect("drop params");
    assert_eq!(p.journal_id, 7);
    assert_eq!(p.onchain_incoming_account_id, 103);
    assert_eq!(p.effective_incoming_account_id, 101);
    assert_eq!(p.onchain_fee_account_id, 102);
    assert_eq!(p.meta.detected_txn_id, 88);
    assert_eq!(p.meta.satoshis, 50_000);
    assert_eq!(p.meta.address, "bc1qd");
    let v = p.values();
    assert_eq!(v.amounts, vec![("amount", 50_000i128), ("encumbered_spending_fees", 300)]);
}

#[test]
fn utxo_drop_errors() {
    let entries = vec![entry("UTXO_DETECTED_UTX_IN_PEN_CR", 103, 1)];
    assert_eq!(utxo_dropped_params(None, &entries, 1).unwrap_err(), LedgerError::TransactionNotFound);
    assert_eq!(
        utxo_dropped_params(Some(StoredTx { journal_id: 7, metadata: MetadataRead::Missing }), &entries, 1).unwrap_err(),
        LedgerError::MissingTxMetadata
    );
    assert_eq!(
        utxo_dropped_params(Some(StoredTx { journal_id: 7, metadata: MetadataRead::Mismatched }), &entries, 1).unwrap_err(),
        LedgerError::MismatchedTxMetadata
    );
    assert_eq!(
        utxo_dropped_params(Some(StoredTx { journal_id: 7, metadata: MetadataRead::Found(detected_meta()) }), &entries, 1)
            .unwrap_err(),
        LedgerError::ExpectedEntryNotFoundInTx("Effective incoming account ID not found")
    );
    assert_eq!(
        utxo_dropped_params(Some(StoredTx { journal_id: 7, metadata: MetadataRead::Found(detected_meta()) }), &vec![], 1)
            .unwrap_err(),
        LedgerError::ExpectedEntryNotFoundInTx("Onchain incoming account ID not found")
    );
}

fn submitted_meta() -> PayoutSubmittedMeta {
    PayoutSubmittedMeta {
        payout_id: 1,
        account_id: 2,
        wallet_id: 3,
        profile_id: 4,
        payout_queue_id: 5,
        satoshis: 6,
        destination: PayoutDestination::OnchainAddress { value: "bc1qp".to_string() },
    }
}

#[test]
fn payout_cancel_uses_the_first_encumbering_entry() {
    let entries = vec![
        entry("PAYOUT_SUBMITTED_LOG_OUT_ENC_DR", 10, 6),
        entry("PAYOUT_SUBMITTED_LOG_OUT_ENC_CR", 11, 6),
        entry("PAYOUT_SUBMITTED_LOG_OUT_ENC_CR", 12, 6),
    ];
    let p = payout_cancelled_params(Some(StoredTx { journal_id: 3, metadata: MetadataRead::Found(submitted_meta()) }), &entries, 77)
        .unwrap();
    assert_eq!(p.effective_outgoing_account_id, 11);
    assert_eq!(p.payout_submitted_tx_id, 77);
    assert_eq!(p.journal_id, 3);
    assert_eq!(p.meta.payout_id, 1);
    let none = payout_cancelled_params(
        Some(StoredTx { journal_id: 3, metadata: MetadataRead::Found(submitted_meta()) }),
        &vec![entry("PAYOUT_SUBMITTED_LOG_OUT_ENC_DR", 10, 6)],
        77,
    );
    assert_eq!(none.unwrap_err(), LedgerError::ExpectedEntryNotFoundInTx("Effective outgoing account ID not found"));
    assert_eq!(
        payout_cancelled_params(Some(StoredTx { journal_id: 3, metadata: MetadataRead::Mismatched }), &entries, 77).unwrap_err(),
        LedgerError::SerdeJson
    );
}

#[test]
fn batch_broadcast_encumbers_fees_for_each_change_output() {
    let change = vec![
        ChangeOutput { outpoint: op(1, 1), address: "a".to_string(), satoshis: 10 },
        ChangeOutput { outpoint: op(1, 2), address: "b".to_string(), satoshis: 20 },
    ];
    let meta = BatchCreatedMeta { batch_info: batch_info(), tx_summary: summary(change) };
    let p = batch_broadcast_params(StoredTx { journal_id: 9, metadata: MetadataRead::Found(meta) }, 250, WalletLedgerAccountIds::default())
        .unwrap()
        .unwrap();
    assert_eq!(p.journal_id, 9);
    assert_eq!(p.meta.encumbered_spending_fees, vec![(op(1, 1), 250), (op(1, 2), 250)]);
    assert!(p.meta.withdraw_from_effective_when_settled.is_empty());
    let v = p.values();
    assert!(v.amounts.contains(&("change", 30)));
    assert!(v.amounts.contains(&("encumbered_spending_fees", 500)));
    assert!(batch_broadcast_params(StoredTx { journal_id: 9, metadata: MetadataRead::Missing }, 250, WalletLedgerAccountIds::default())
        .unwrap()
        .is_none());
}

#[test]
fn batch_drop_reads_back_accounts_and_fees() {
    let entries = vec![
        entry("BATCH_CREATED_LOG_OUT_ENC_DR", 21, 1),
        entry("BATCH_CREATED_FR_ENC_CR", 22, 700),
        entry("BATCH_CREATED_UTX_SET_DR", 23, 1),
    ];
    let meta = BatchCreatedMeta { batch_info: batch_info(), tx_summary: summary(vec![]) };
    let p = batch_dropped_params(Some(StoredTx { journal_id: 9, metadata: MetadataRead::Found(meta) }), &entries, 44).unwrap();
    let omnibus = WalletLedgerAccountIds::default();
    assert_eq!(p.ledger_account_ids.effective_outgoing_id, 21);
    assert_eq!(p.ledger_account_ids.fee_id, 22);
    assert_eq!(p.ledger_account_ids.onchain_at_rest_id, 23);
    assert_eq!(p.ledger_account_ids.effective_at_rest_id, omnibus.effective_at_rest_id);
    assert_eq!(p.encumbered_fees, 700);
    assert_eq!(p.meta.created_txn_id, 44);
    assert_eq!(batch_dropped_params(None, &entries, 44).unwrap_err(), LedgerError::TransactionNotFound);
}

#[test]
fn spend_settlement_carries_the_detection_summary() {
    let s = SpendDetectedSummary { batch_info: Some(batch_info()), tx_summary: summary(vec![]) };
    let t = BlockTime { height: 10, timestamp: 86_400 * 3 + 5 };
    let p = spend_settled_params(StoredTx { journal_id: 1, metadata: MetadataRead::Found(s) }, 2, WalletLedgerAccountIds::default(), 3, t, true)
        .unwrap()
        .unwrap();
    assert_eq!(p.journal_id, 2);
    assert_eq!(p.spend_detected_tx_id, 3);
    assert!(p.change_spent);
    assert_eq!(p.meta.confirmation_time, t);
    assert_eq!(p.meta.tx_summary.fee_sats, 500);
    let none = spend_settled_params(StoredTx { journal_id: 1, metadata: MetadataRead::Missing }, 2, WalletLedgerAccountIds::default(), 3, t, true);
    assert!(none.unwrap().is_none());
}

fn settled_meta(already_spent: Option<u128>) -> UtxoSettledMeta {
    UtxoSettledMeta {
        account_id: 1,
        wallet_id: 2,
        keychain_id: 3,
        confirmation_time: BlockTime { height: 1, timestamp: 1 },
        satoshis: 10,
        outpoint: op(7, 1),
        address: "x".to_string(),
        already_spent_tx_id: already_spent,
    }
}

#[test]
fn utxo_settlement_posting_depends_on_prior_spend() {
    let p = utxo_settled_posting(&settled_meta(None), None);
    assert_eq!(p.code, UTXO_SETTLED_CODE);
    assert_eq!(p.withdraw_from_effective_settled, None);
    let p = utxo_settled_posting(&settled_meta(Some(5)), Some(vec![(op(7, 0), 3), (op(7, 1), 42)]));
    assert_eq!(p.code, SPENT_UTXO_SETTLED_CODE);
    assert_eq!(p.withdraw_from_effective_settled, Some(42));
    let p = utxo_settled_posting(&settled_meta(Some(5)), Some(vec![(op(7, 0), 3)]));
    assert_eq!(p.withdraw_from_effective_settled, Some(0));
    let p = utxo_settled_posting(&settled_meta(Some(5)), None);
    assert_eq!(p.code, SPENT_UTXO_SETTLED_CODE);
    assert_eq!(p.withdraw_from_effective_settled, None);
}

#[test]
fn reserved_fees_are_summed_over_requested_outputs() {
    let requests = vec![(1u128, op(1, 0)), (1, op(1, 1)), (2, op(2, 0)), (3, op(3, 0))];
    let txs = vec![
        (1u128, MetadataRead::Found(vec![(op(1, 0), 100), (op(1, 1), 200), (op(1, 2), 400)])),
        (2, MetadataRead::Missing),
    ];
    assert_eq!(sum_reserved_fees_in_txs(&requests, &txs), Ok(300));
    let bad = vec![(1u128, MetadataRead::Mismatched)];
    assert_eq!(sum_reserved_fees_in_txs(&requests, &bad), Err(LedgerError::SerdeJson));
    assert_eq!(detected_tx_ids(&requests), vec![1, 2, 3]);
}

#[test]
fn legacy_fix_reverts_spent_change_of_batch_spends() {
    let tx = |id: u128| LedgerTxRecord { id, journal_id: 9, correlation_id: 8, effective: 19_000 };
    let records = vec![
        SettledSpendRecord {
            tx: tx(1),
            has_batch_info: true,
            entries: vec![entry("SPEND_SETTLED_CHG_SPENT_SET_DR", 31, 0), entry("SPEND_SETTLED_CHG_SPENT_SET_DR", 32, 77)],
        },
        SettledSpendRecord { tx: tx(2), has_batch_info: false, entries: vec![entry("SPEND_SETTLED_CHG_SPENT_SET_DR", 33, 5)] },
        SettledSpendRecord { tx: tx(3), has_batch_info: true, entries: vec![entry("SPEND_SETTLED_FEE_SETTLED_DR", 34, 5)] },
    ];
    let fixes = legacy_fix_postings(records);
    assert_eq!(fixes.len(), 1);
    assert_eq!(fixes[0].tx.id, 1);
    assert_eq!(fixes[0].account_id, 32);
    assert_eq!(fixes[0].units, 77);
    let v = fixes[0].values();
    assert_eq!(v.amounts, vec![("revert_amount", 77)]);
}
