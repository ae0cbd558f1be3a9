use std::collections::HashMap;

use bria::ledger::entries::LedgerEntry;
use bria::ledger::postings::{batch_dropped_params, utxo_dropped_params, MetadataRead, StoredTx};
use bria::ledger::template::{AccountRef, Direction, EntryDef, Layer, TxParamValues, Units};
use bria::ledger::templates::batch_created::{BatchCreated, BatchCreatedMeta, BatchCreatedParams};
use bria::ledger::templates::shared_meta::{BatchWalletInfo, ChangeOutput, WalletTransactionSummary};
use bria::ledger::templates::spend_detected::SpendDetected;
use bria::ledger::templates::spend_settled::SpendSettled;
use bria::ledger::templates::utxo_detected::{UtxoDetected, UtxoDetectedMeta, UtxoDetectedParams};
use bria::ledger::templates::utxo_dropped::UtxoDropped;
use bria::ledger::wallet_accounts::WalletLedgerAccountIds;
use bria::primitives::{OutPoint, Txid};

fn lookup<T: Copy + Default>(pairs: &[(&'static str, T)], name: &str) -> T {
    pairs.iter().find(|(n, _)| *n == name).map(|(_, v)| *v).unwrap_or_default()
}

/// Posts a template's entries with the given values, as the ledger stores them.
fn post(entries: &[EntryDef], v: &TxParamValues) -> Vec<LedgerEntry> {
    let amount = |n: &str| lookup(&v.amounts, n);
    let flag = |n: &str| lookup(&v.flags, n);
    let id = |n: &str| lookup(&v.ids, n);
    entries
        .iter()
        .map(|e| LedgerEntry {
            transaction_id: 1,
            entry_type: e.entry_type.trim_matches('\'').to_string(),
            account_id: match e.account {
                AccountRef::Fixed(a) => a,
                AccountRef::Param(n) => id(n),
                AccountRef::FixedIf(f, a, n) => {
                    if flag(f) {
                        a
                    } else {
                        id(n)
                    }
                }
                AccountRef::ParamIf(f, n, a) => {
                    if flag(f) {
                        id(n)
                    } else {
                        a
                    }
                }
            },
            direction: e.direction,
            layer: e.layer,
            units: match e.units {
                Units::Param(a) => amount(a),
                Units::Minus(a, b) => amount(a) - amount(b),
                Units::MinusTwo(a, b, c) => amount(a) - amount(b) - amount(c),
                Units::Plus(a, b) => amount(a) + amount(b),
                Units::IfElseZero(f, a) => {
                    if flag(f) {
                        amount(a)
                    } else {
                        0
                    }
                }
            },
        })
        .collect()
}

/// Debits less credits, by account and layer.
fn net(entries: &[LedgerEntry]) -> HashMap<(u128, Layer), i128> {
    let mut m = HashMap::new();
    for e in entries {
        let signed = match e.direction {
            Direction::Debit => e.units,
            Direction::Credit => -e.units,
        };
        *m.entry((e.account_id, e.layer)).or_insert(0) += signed;
    }
    m
}

fn layer_totals(entries: &[LedgerEntry]) -> HashMap<Layer, i128> {
    let mut m = HashMap::new();
    for ((_, layer), v) in net(entries) {
        *m.entry(layer).or_insert(0) += v;
    }
    m
}

fn op(n: u128, vout: u32) -> OutPoint {
    OutPoint { txid: Txid { hi: 0, lo: n }, vout }
}

fn detection() -> UtxoDetectedParams {
    let ids = WalletLedgerAccountIds::from(0xaaaa_bbbb_cccc_dddd_eeee_ffff_0000_1111u128);
    UtxoDetectedParams {
        journal_id: 5,
        onchain_incoming_account_id: ids.onchain_incoming_id,
        effective_incoming_account_id: ids.effective_incoming_id,
        onchain_fee_account_id: ids.fee_id,
        meta: UtxoDetectedMeta {
            account_id: 1,
            wallet_id: 2,
            keychain_id: 3,
            outpoint: op(7, 1),
            satoshis: 125_000,
            address: "bc1qz".to_string(),
            encumbered_spending_fees: vec![(op(7, 1), 1_200)],
            confirmation_time: None,
        },
    }
}

#[test]
fn dropping_a_detected_utxo_undoes_its_detection() {
    let p = detection();
    let detected = post(&UtxoDetected::template().entries, &p.values());
    let drop = utxo_dropped_params(Some(StoredTx { journal_id: p.journal_id, metadata: MetadataRead::Found(p.meta.clone()) }), &detected, 9)
        .expect("drop");
    let dropped = post(&UtxoDropped::template().entries, &drop.values());
    let before = net(&detected);
    let after = net(&dropped);
    assert!(before.values().any(|v| *v != 0));
    for (k, v) in &before {
        assert_eq!(after.get(k).copied().unwrap_or(0), -v, "{k:?}");
    }
    let mut all = detected.clone();
    all.extend(dropped);
    assert!(net(&all).values().all(|v| *v == 0));
}

#[test]
fn dropping_a_batch_reads_back_its_creation() {
    let ids = WalletLedgerAccountIds::from(0x1111_2222_3333_4444_5555_6666_7777_8888u128);
    let p = BatchCreatedParams {
        journal_id: 3,
        ledger_account_ids: ids,
        encumbered_fees: 2_500,
        meta: BatchCreatedMeta {
            batch_info: BatchWalletInfo { account_id: 1, payout_queue_id: 2, batch_id: 4, wallet_id: 5, included_payouts: vec![] },
            tx_summary: WalletTransactionSummary {
                account_id: 1,
                wallet_id: 5,
                current_keychain_id: 6,
                bitcoin_tx_id: Txid { hi: 1, lo: 1 },
                total_utxo_in_sats: 300_000,
                total_utxo_settled_in_sats: 300_000,
                fee_sats: 1_000,
                change_utxos: vec![ChangeOutput { outpoint: op(8, 0), address: "bc1qc".to_string(), satoshis: 49_000 }],
            },
        },
    };
    let created = post(&BatchCreated::template().entries, &p.values());
    let d = batch_dropped_params(Some(StoredTx { journal_id: p.journal_id, metadata: MetadataRead::Found(p.meta.clone()) }), &created, 12)
        .expect("drop");
    assert_eq!(d.ledger_account_ids.effective_outgoing_id, ids.effective_outgoing_id);
    assert_eq!(d.ledger_account_ids.effective_at_rest_id, ids.effective_at_rest_id);
    assert_eq!(d.ledger_account_ids.fee_id, ids.fee_id);
    assert_eq!(d.ledger_account_ids.onchain_outgoing_id, ids.onchain_outgoing_id);
    assert_eq!(d.ledger_account_ids.onchain_incoming_id, ids.onchain_incoming_id);
    assert_eq!(d.ledger_account_ids.onchain_at_rest_id, ids.onchain_at_rest_id);
    assert_eq!(d.encumbered_fees, 2_500);
    assert_eq!(d.journal_id, 3);
}

#[test]
fn postings_balance_on_every_layer() {
    let p = detection();
    let detected = post(&UtxoDetected::template().entries, &p.values());
    assert!(layer_totals(&detected).values().all(|v| *v == 0));
    let v = TxParamValues {
        ids: vec![("logical_outgoing_account_id", 10), ("onchain_fee_account_id", 11), ("onchain_outgoing_account_id", 12)],
        amounts: vec![("total_utxo_in", 1_000), ("change", 300), ("fees", 20), ("encumbered_fee_diff", 7)],
        flags: vec![("change_spent", true), ("encumbered_fee_credit", false)],
        effective: bria::ledger::template::EffectiveDate::Today,
    };
    for entries in [SpendSettled::template().entries, SpendDetected::template().entries] {
        let posted = post(&entries, &v);
        assert!(layer_totals(&posted).values().all(|t| *t == 0));
    }
}
