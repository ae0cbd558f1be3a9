use bria::job::process_payout_queue::batch_built;
use bria::job::batch_broadcasting::{should_broadcast, BatchBroadcastingData};
use bria::job::batch_finalizing::{check_sessions_signed, FinalizingError};
use bria::job::batch_signing::{signing_outcome, BatchSigningData, Finalization, SessionAttempt, SigningOutcome, SigningRound};
use bria::job::batch_wallet_accounting::{batch_created_params, BatchRecord, BatchWalletAccountingData};
use bria::job::config::{JobsConfig, SigningJobConfig};
use bria::job::process_payout_queue::{included_utxos, ProcessPayoutQueueData, WalletSummary, WalletTotals};
use bria::job::sync_wallet::{
    first_change, has_more, settle_now, spend_detected_params, spend_settles_now, split_outputs, utxo_detected_params,
    utxo_settled_params, DetectedSpend, InstrumentationTrackers, SettledUtxo, SyncWalletData, SyncedOutput, TxScan,
    UnsyncedTxDecision, MAX_TXS_PER_SYNC,
};
use bria::job::{
    account_main_channel_arg, batch_channel_arg, on_spawn_error, schedule_delay, schedule_payout_queue_channel_arg,
    text_contains, wallet_channel_arg, SpawnDecision, SpawnError,
};
use bria::job_svc::{handler_spawned, JobCreateError, PopulateOutboxJobConfig};
use bria::ledger::templates::shared_meta::{PayoutDestination, PayoutInfo};
use bria::ledger::wallet_accounts::WalletLedgerAccountIds;
use bria::primitives::{BlockTime, KeychainKind, OutPoint, Txid};

fn op(n: u128, vout: u32) -> OutPoint {
    OutPoint { txid: Txid { hi: 0, lo: n }, vout }
}

fn output(n: u32, keychain: KeychainKind) -> SyncedOutput {
    SyncedOutput { outpoint: op(1, n), satoshis: 1000 + n as u64, keychain, is_spent: false, path: n }
}

#[test]
fn jobs_config_defaults() {
    let c = JobsConfig::default();
    assert_eq!(c.sync_all_wallets_delay, 5);
    assert_eq!(c.process_all_payout_queues_delay, 2);
    assert_eq!(c.respawn_all_outbox_handlers_delay, 5);
    let s = SigningJobConfig::default();
    assert_eq!(s.warn_retries, 9);
    assert_eq!(s.max_attempts, 25);
    assert_eq!(s.max_retry_delay, 300);
    assert_eq!(c.signing.max_attempts, 25);
}

#[test]
fn channel_args_name_the_id() {
    assert_eq!(account_main_channel_arg(1), "account_id:00000000-0000-0000-0000-000000000001");
    assert_eq!(
        schedule_payout_queue_channel_arg(0x0123_4567_89ab_cdef_0123_4567_89ab_cdef),
        "payout_queue_id:01234567-89ab-cdef-0123-456789abcdef"
    );
    assert_eq!(wallet_channel_arg(0xff), "wallet_id:00000000-0000-0000-0000-0000000000ff");
    assert_eq!(batch_channel_arg(u128::MAX), "batch_id:ffffffff-ffff-ffff-ffff-ffffffffffff");
}

#[test]
fn text_search() {
    assert!(text_contains("duplicate key value violates", "duplicate key"));
    assert!(text_contains("abc", ""));
    assert!(!text_contains("dup", "duplicate"));
    assert!(text_contains("x after_message_id_fkey", "after_message_id_fkey"));
    assert!(!text_contains("after_message_id_fke", "after_message_id_fkey"));
}

#[test]
fn refused_spawns_are_taken_by_their_message() {
    let dup = SpawnError::Database("duplicate key value violates unique constraint".to_string());
    let fkey = SpawnError::Database("insert violates foreign key constraint \"after_message_id_fkey\"".to_string());
    let other = SpawnError::Database("connection reset".to_string());
    assert_eq!(on_spawn_error(&dup, true), SpawnDecision::AlreadySpawned);
    assert_eq!(on_spawn_error(&dup, false), SpawnDecision::AlreadySpawned);
    assert_eq!(on_spawn_error(&fkey, true), SpawnDecision::RetryAfterPause);
    assert_eq!(on_spawn_error(&fkey, false), SpawnDecision::Fail);
    assert_eq!(on_spawn_error(&other, true), SpawnDecision::Fail);
    assert_eq!(on_spawn_error(&SpawnError::Other, true), SpawnDecision::Fail);
}

#[test]
fn payout_queue_runs_are_scheduled_a_second_early() {
    assert_eq!(schedule_delay(5_000_000_000), 4_000_000_000);
    assert_eq!(schedule_delay(1_000_000_000), 0);
    assert_eq!(schedule_delay(500_000_000), 0);
    assert_eq!(schedule_delay(1_500_000_000), 500_000_000);
}

#[test]
fn sync_scan_skips_transactions_with_unknown_inputs() {
    let mut scan = TxScan::new(InstrumentationTrackers::new());
    let a = Txid { hi: 0, lo: 1 };
    let b = Txid { hi: 0, lo: 2 };
    assert_eq!(scan.on_unsynced_tx(a, 2, 1), UnsyncedTxDecision::Skip);
    assert_eq!(scan.txs_to_skip, vec![a]);
    assert_eq!(scan.on_unsynced_tx(b, 0, 0), UnsyncedTxDecision::Process { spend_tx: false });
    assert!(scan.txs_to_skip.is_empty());
    assert_eq!(scan.on_unsynced_tx(a, 2, 2), UnsyncedTxDecision::Process { spend_tx: true });
    assert_eq!(scan.trackers.n_found_txs, 3);
    assert!(!scan.should_stop());
}

#[test]
fn sync_has_more_after_a_full_batch_of_transactions() {
    let mut t = InstrumentationTrackers::new();
    assert!(!has_more(&t));
    t.n_found_txs = MAX_TXS_PER_SYNC - 1;
    assert!(!has_more(&t));
    t.n_found_txs = MAX_TXS_PER_SYNC;
    assert!(has_more(&t));
    assert_eq!(MAX_TXS_PER_SYNC, 100);
}

#[test]
fn sync_splits_change_from_income() {
    let outs = vec![
        output(0, KeychainKind::External),
        output(1, KeychainKind::Internal),
        output(2, KeychainKind::External),
        output(3, KeychainKind::Internal),
    ];
    assert_eq!(first_change(&outs), Some(outs[1]));
    let (change, income) = split_outputs(outs.clone());
    assert_eq!(change, vec![outs[1], outs[3]]);
    assert_eq!(income, vec![outs[0], outs[2]]);
    assert_eq!(first_change(&vec![output(0, KeychainKind::External)]), None);
}

#[test]
fn sync_settles_what_is_deep_enough() {
    let t = BlockTime { height: 100, timestamp: 5 };
    assert_eq!(settle_now(Some(t), 100), Some(t));
    assert_eq!(settle_now(Some(t), 99), None);
    assert_eq!(settle_now(None, 1000), None);
    assert_eq!(spend_settles_now(Some(t), true, 100), Some(t));
    assert_eq!(spend_settles_now(Some(t), false, 100), None);
    assert_eq!(spend_settles_now(Some(t), true, 50), None);
}

fn ids() -> WalletLedgerAccountIds {
    WalletLedgerAccountIds::from(0x1234_5678_9abc_def0_1234_5678_9abc_def0u128)
}

#[test]
fn sync_builds_detection_and_settlement_postings() {
    let data = SyncWalletData::new(1, 2);
    assert_eq!((data.account_id, data.wallet_id), (1, 2));
    let o = output(5, KeychainKind::External);
    let p = utxo_detected_params(7, &ids(), &data, 3, &o, "bc1q".to_string(), 150, None);
    assert_eq!(p.onchain_incoming_account_id, ids().onchain_incoming_id);
    assert_eq!(p.effective_incoming_account_id, ids().effective_incoming_id);
    assert_eq!(p.onchain_fee_account_id, ids().fee_id);
    assert_eq!(p.meta.satoshis, 1005);
    assert_eq!(p.meta.encumbered_spending_fees, vec![(o.outpoint, 150)]);
    let t = BlockTime { height: 3, timestamp: 4 };
    let utxo = SettledUtxo {
        utxo_detected_ledger_tx_id: 11,
        utxo_settled_ledger_tx_id: 12,
        spend_detected_ledger_tx_id: Some(13),
        value: 1005,
        address: "bc1q".to_string(),
    };
    let s = utxo_settled_params(7, ids(), &data, 3, o.outpoint, t, utxo);
    assert_eq!(s.pending_id, 11);
    assert_eq!(s.meta.already_spent_tx_id, Some(13));
    assert_eq!(s.meta.confirmation_time, t);
}

#[test]
fn sync_builds_spend_detection() {
    let data = SyncWalletData::new(1, 2);
    let spend = DetectedSpend { bitcoin_tx_id: Txid { hi: 9, lo: 9 }, total_utxo_in_sats: 10_000, fee_sats: 200, confirmation_time: None };
    let change = vec![(output(1, KeychainKind::Internal), "bc1qc".to_string())];
    let p = spend_detected_params(7, ids(), 400, &data, 3, spend, 6_000, vec![(op(4, 0), 50)], change, 150);
    assert_eq!(p.reserved_fees, 400);
    assert_eq!(p.meta.encumbered_spending_fees, vec![(op(1, 1), 150)]);
    assert_eq!(p.meta.tx_summary.change_utxos.len(), 1);
    assert_eq!(p.meta.tx_summary.change_utxos[0].satoshis, 1001);
    assert_eq!(p.meta.tx_summary.change_utxos[0].address, "bc1qc");
    assert_eq!(p.meta.tx_summary.total_utxo_settled_in_sats, 6_000);
    assert_eq!(p.meta.withdraw_from_effective_when_settled, vec![(op(4, 0), 50)]);
}

#[test]
fn signing_round_outcomes() {
    let mut r = SigningRound::new();
    r.record(1, SessionAttempt::Signed);
    assert!(r.any_updated && !r.stalled && r.last_error.is_none());
    assert_eq!(signing_outcome(true, Finalization::Finalized, &r), (SigningOutcome::Complete, Some("complete")));
    assert_eq!(
        signing_outcome(true, Finalization::NotFinalized, &r),
        (SigningOutcome::Incomplete, Some("stalled_due_to_finalization"))
    );
    assert_eq!(signing_outcome(true, Finalization::Failed, &r), (SigningOutcome::FinalizationError, Some("errored")));
    r.record(2, SessionAttempt::SignerConfigMissing);
    assert!(r.stalled);
    assert_eq!(signing_outcome(true, Finalization::Failed, &r), (SigningOutcome::Incomplete, Some("stalled")));
    r.record(3, SessionAttempt::ClientFailed);
    r.record(4, SessionAttempt::SigningFailed);
    assert_eq!(r.last_error, Some(4));
    assert_eq!(signing_outcome(true, Finalization::NotFinalized, &r), (SigningOutcome::LastError, Some("returning_last_error")));
    assert_eq!(signing_outcome(true, Finalization::Finalized, &r), (SigningOutcome::Complete, Some("complete")));
    assert_eq!(signing_outcome(false, Finalization::Failed, &r), (SigningOutcome::LastError, None));
    assert_eq!(signing_outcome(false, Finalization::Failed, &SigningRound::new()), (SigningOutcome::Incomplete, None));
}

#[test]
fn finalizing_needs_every_session_signed() {
    assert_eq!(check_sessions_signed(&vec![true, true]), Ok(()));
    assert_eq!(check_sessions_signed(&vec![true, false]), Err(FinalizingError::PsbtMissingInSigningSessions));
    assert_eq!(check_sessions_signed(&vec![]), Err(FinalizingError::PsbtMissingInSigningSessions));
}

#[test]
fn broadcasting_waits_for_accounting_and_signature() {
    assert!(should_broadcast(true, true));
    assert!(!should_broadcast(false, true));
    assert!(!should_broadcast(true, false));
}

#[test]
fn payout_queue_run_data_and_follow_up_jobs() {
    let d = ProcessPayoutQueueData::new(1, 2, vec![("traceparent".to_string(), "x".to_string())]);
    assert_eq!((d.account_id, d.payout_queue_id), (1, 2));
    let other = ProcessPayoutQueueData::new(1, 2, vec![]);
    assert_ne!(d.batch_id, other.batch_id);
    assert_eq!((d.batch_id >> 76) & 0xF, 4);
    assert_eq!((d.batch_id >> 62) & 0x3, 2);
    let a = BatchWalletAccountingData::for_wallet(&d, 9, vec![]);
    assert_eq!((a.account_id, a.batch_id, a.wallet_id), (1, d.batch_id, 9));
    let s = BatchSigningData::for_queue_run(&d, vec![]);
    assert_eq!((s.account_id, s.batch_id), (1, d.batch_id));
    let b = BatchBroadcastingData::from(a);
    assert_eq!((b.account_id, b.batch_id), (1, d.batch_id));
    let b2 = BatchBroadcastingData::from(BatchSigningData::new(5, 6, vec![]));
    assert_eq!((b2.account_id, b2.batch_id), (5, 6));
}

#[test]
fn wallet_summary_keeps_change_address_only_with_change() {
    let wt = |change: Option<OutPoint>| WalletTotals {
        wallet_id: 1,
        keychains_with_inputs: vec![2],
        input_satoshis: 100,
        output_satoshis: 80,
        fee_satoshis: 5,
        change_satoshis: 15,
        change_outpoint: change,
        change_address: "bc1qchange".to_string(),
        change_keychain_id: 3,
    };
    let s = WalletSummary::from_totals(wt(Some(op(1, 0))));
    assert_eq!(s.change_address.as_deref(), Some("bc1qchange"));
    assert_eq!(s.total_in_sats, 100);
    assert!(s.batch_created_ledger_tx_id.is_none());
    let s = WalletSummary::from_totals(wt(None));
    assert_eq!(s.change_address, None);
}

#[test]
fn included_utxos_are_flattened_in_order() {
    let included = vec![(1u128, vec![op(1, 0), op(1, 1)]), (2, vec![]), (3, vec![op(3, 0)])];
    assert_eq!(included_utxos(&included), vec![(1, op(1, 0)), (1, op(1, 1)), (3, op(3, 0))]);
}

#[test]
fn batch_creation_posting_for_a_wallet() {
    let data = BatchWalletAccountingData { account_id: 1, wallet_id: 2, batch_id: 3, tracing_data: vec![] };
    let summary = |outpoint: Option<OutPoint>, address: Option<String>| WalletSummary {
        wallet_id: 2,
        signing_keychains: vec![],
        total_in_sats: 10_000,
        total_spent_sats: 9_000,
        fee_sats: 100,
        change_sats: 900,
        change_address: address,
        change_outpoint: outpoint,
        current_keychain_id: 4,
        batch_created_ledger_tx_id: None,
        batch_broadcast_ledger_tx_id: None,
    };
    let payouts = vec![PayoutInfo {
        id: 5,
        profile_id: 6,
        satoshis: 9_000,
        destination: PayoutDestination::OnchainAddress { value: "bc1qout".to_string() },
    }];
    let batch = BatchRecord { id: 3, bitcoin_tx_id: Txid { hi: 1, lo: 1 }, payout_queue_id: 7 };
    let p = batch_created_params(&data, 8, ids(), 120, batch, summary(Some(op(1, 1)), Some("bc1qc".to_string())), payouts);
    assert_eq!(p.encumbered_fees, 120);
    assert_eq!(p.meta.batch_info.payout_queue_id, 7);
    assert_eq!(p.meta.tx_summary.total_utxo_settled_in_sats, 10_000);
    assert_eq!(p.meta.tx_summary.change_utxos.len(), 1);
    assert_eq!(p.meta.tx_summary.change_utxos[0].satoshis, 900);
    let v = p.values();
    assert!(v.amounts.contains(&("change", 900)));
    let p = batch_created_params(&data, 8, ids(), 120, batch, summary(Some(op(1, 1)), None), vec![]);
    assert!(p.meta.tx_summary.change_utxos.is_empty());
}

#[test]
fn outbox_handler_config_and_spawn() {
    let c = PopulateOutboxJobConfig::new(1, 2, vec![]);
    assert_eq!(c.job_id(), 2);
    assert!(handler_spawned(Ok(())));
    assert!(handler_spawned(Err(JobCreateError::DuplicateUniqueJobType)));
    assert!(!handler_spawned(Err(JobCreateError::Other)));
}

#[test]
fn sync_scan_checks_the_limit_only_when_a_transaction_is_handled_to_the_end() {
    let mut t = InstrumentationTrackers::new();
    t.n_found_txs = MAX_TXS_PER_SYNC;
    let scan = TxScan::new(t);
    let deep = Some(BlockTime { height: 10, timestamp: 0 });
    assert!(!scan.stop_after(UnsyncedTxDecision::Skip, None, 100));
    assert!(scan.stop_after(UnsyncedTxDecision::Process { spend_tx: false }, None, 100));
    assert!(!scan.stop_after(UnsyncedTxDecision::Process { spend_tx: false }, deep, 100));
    assert!(scan.stop_after(UnsyncedTxDecision::Process { spend_tx: true }, deep, 100));
    assert!(!scan.stop_after(UnsyncedTxDecision::Process { spend_tx: true }, deep, 5));
    let fresh = TxScan::new(InstrumentationTrackers::new());
    assert!(!fresh.stop_after(UnsyncedTxDecision::Process { spend_tx: false }, None, 100));
}

#[test]
fn a_batch_is_made_only_with_both_tx_id_and_psbt() {
    assert_eq!(batch_built(Some(1u8), Some("psbt")), Some((1, "psbt")));
    assert_eq!(batch_built::<u8, &str>(Some(1), None), None);
    assert_eq!(batch_built::<u8, &str>(None, Some("psbt")), None);
}
