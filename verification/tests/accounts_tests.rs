use bria::ledger::accounts::omnibus_account_created;
use bria::ledger::error::{CreateError, LedgerError};
use bria::ledger::template::template_created;
use bria::ledger::accounts::{journal_description, omnibus_ledger_accounts, wallet_ledger_accounts, DebitOrCredit};
use bria::ledger::constants::{Category, Element, SubGroup, ONCHAIN_FEE_ID, SPEND_SETTLED_CODE, UTXO_DETECTED_CODE, UTXO_DETECTED_ID};
use bria::ledger::template::{effective_date, quote, Direction, EffectiveDate, Layer};
use bria::ledger::templates::batch_broadcast::BatchBroadcast;
use bria::ledger::templates::batch_created::BatchCreated;
use bria::ledger::templates::fix_legacy_batch_created::FixLegacyBatchCreated;
use bria::ledger::templates::spend_detected::SpendDetected;
use bria::ledger::templates::spend_settled::SpendSettled;
use bria::ledger::templates::spent_utxo_settled::SpentUtxoSettled;
use bria::ledger::templates::utxo_detected::UtxoDetected;
use bria::ledger::templates::utxo_dropped::UtxoDropped;
use bria::ledger::wallet_accounts::{derive_wallet_ledger_account_code, WalletLedgerAccountIds};

const WALLET: u128 = 0x12345678_9abc_def0_1234_56789abcdef0;

#[test]
fn account_code_parts() {
    assert_eq!(Element::Asset.code(), "1");
    assert_eq!(Element::Liability.code(), "2");
    assert_eq!(Element::Revenue.code(), "4");
    assert_eq!(Element::Expense.code(), "6");
    assert_eq!(SubGroup::AtRest.code(), "00");
    assert_eq!(SubGroup::Incoming.code(), "10");
    assert_eq!(SubGroup::Outgoing.code(), "20");
    assert_eq!(Category::Onchain.code(), "1000");
    assert_eq!(Category::Effective.code(), "2000");
    assert_eq!(Category::Fee.code(), "3000");
    assert_eq!(Category::Dust.code(), "0000");
    assert_eq!(
        derive_wallet_ledger_account_code(Element::Liability, SubGroup::Incoming, Category::Onchain, "123456789abc"),
        "00000000-2010-0000-1000-123456789abc"
    );
}

#[test]
fn wallet_accounts_are_derived_from_the_wallet_id() {
    let ids = WalletLedgerAccountIds::from(WALLET);
    assert_eq!(ids.onchain_incoming_id, 0x00000000_2010_0000_1000_123456789abc);
    assert_eq!(ids.onchain_at_rest_id, 0x00000000_2000_0000_1000_123456789abc);
    assert_eq!(ids.onchain_outgoing_id, 0x00000000_2020_0000_1000_123456789abc);
    assert_eq!(ids.effective_incoming_id, 0x00000000_2010_0000_2000_123456789abc);
    assert_eq!(ids.effective_at_rest_id, 0x00000000_2000_0000_2000_123456789abc);
    assert_eq!(ids.effective_outgoing_id, 0x00000000_2020_0000_2000_123456789abc);
    assert_eq!(ids.fee_id, 0x00000000_4000_0000_3000_123456789abc);
    assert_eq!(ids.dust_id, 0x00000000_4000_0000_0000_123456789abc);
    assert_eq!(ids.get_wallet_id_prefix(), "123456789abc");
}

#[test]
fn default_accounts_are_the_omnibus_ones() {
    let ids = WalletLedgerAccountIds::default();
    assert_eq!(ids.fee_id, ONCHAIN_FEE_ID);
    assert_eq!(ids.dust_id, 0);
    assert_eq!(ids.get_wallet_id_prefix(), "000000000000");
}

#[test]
fn wallet_ledger_accounts_are_named_after_the_prefix() {
    let accounts = wallet_ledger_accounts(&WalletLedgerAccountIds::from(WALLET));
    assert_eq!(accounts.len(), 8);
    assert_eq!(accounts[0].code, "WALLET_123456789abc_UTXO_INCOMING");
    assert_eq!(accounts[0].name, "123456789abc-utxo-incoming");
    assert_eq!(accounts[0].description, "Account for wallet '123456789abc'");
    assert_eq!(accounts[0].normal_balance_type, Some(DebitOrCredit::Credit));
    assert_eq!(accounts[6].code, "WALLET_123456789abc_ONCHAIN_FEE");
    assert_eq!(accounts[6].normal_balance_type, Some(DebitOrCredit::Debit));
    assert_eq!(accounts[7].name, "123456789abc-dust");
    let omnibus = omnibus_ledger_accounts();
    assert_eq!(omnibus.len(), 7);
    assert_eq!(omnibus[3].code, "ONCHAIN_FEE");
    assert_eq!(omnibus[3].normal_balance_type, None);
    assert_eq!(journal_description("acme"), "Journal for account 'acme'");
}

#[test]
fn templates_have_their_ids_and_entries() {
    let t = UtxoDetected::template();
    assert_eq!(t.id, UTXO_DETECTED_ID);
    assert_eq!(t.code, UTXO_DETECTED_CODE);
    assert_eq!(t.entries.len(), 6);
    assert_eq!(t.entries[0].entry_type, "'UTXO_DETECTED_LOG_IN_PEN_DR'");
    assert_eq!(t.entries[0].direction, Direction::Debit);
    assert_eq!(t.entries[0].layer, Layer::Pending);
    assert_eq!(UtxoDropped::template().entries.len(), 6);
    assert_eq!(SpentUtxoSettled::template().entries.len(), 12);
    assert_eq!(SpendDetected::template().entries.len(), 14);
    let s = SpendSettled::template();
    assert_eq!(s.code, SPEND_SETTLED_CODE);
    assert_eq!(s.entries.len(), 18);
    assert!(s.with_correlation_id);
    assert_eq!(BatchCreated::template().entries.len(), 16);
    assert_eq!(BatchBroadcast::template().entries.len(), 6);
    assert_eq!(FixLegacyBatchCreated::template().entries.len(), 2);
}

#[test]
fn template_balances_on_every_layer_for_sample_values() {
    for t in [UtxoDetected::template(), SpendSettled::template(), BatchCreated::template()] {
        for layer in [Layer::Pending, Layer::Settled, Layer::Encumbered] {
            let mut debits = 0usize;
            let mut credits = 0usize;
            for e in t.entries.iter().filter(|e| e.layer == layer) {
                match e.direction {
                    Direction::Debit => debits += 1,
                    Direction::Credit => credits += 1,
                }
            }
            assert_eq!(debits, credits);
        }
    }
}

#[test]
fn effective_dates_and_quotes() {
    assert_eq!(effective_date(Some(86_400 * 3 + 5)), EffectiveDate::Day(3));
    assert_eq!(effective_date(None), EffectiveDate::Today);
    assert_eq!(quote("BTC"), "'BTC'");
}

#[test]
fn existing_accounts_and_templates_are_no_error() {
    assert_eq!(omnibus_account_created(Ok(7), 9), Ok(7));
    assert_eq!(omnibus_account_created(Err(CreateError::DuplicateKey), ONCHAIN_FEE_ID), Ok(ONCHAIN_FEE_ID));
    assert_eq!(omnibus_account_created(Err(CreateError::Other), 9), Err(LedgerError::SqlxLedger));
    assert_eq!(template_created(Ok(())), Ok(()));
    assert_eq!(template_created(Err(CreateError::DuplicateKey)), Ok(()));
    assert_eq!(template_created(Err(CreateError::Other)), Err(LedgerError::SqlxLedger));
}
