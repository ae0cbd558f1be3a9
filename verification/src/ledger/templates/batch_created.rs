//! A batch paying out of a wallet is built: its outgoing amounts are encumbered and pending, the spent UTXOs leave the at-rest accounts and its change is encumbered as incoming.
use vstd::prelude::*;

use crate::ledger::constants::{EFFECTIVE_INCOMING_ID, BATCH_CREATED_CODE, BATCH_CREATED_ID, EFFECTIVE_AT_REST_ID, EFFECTIVE_OUTGOING_ID, ONCHAIN_FEE_ID, ONCHAIN_UTXO_AT_REST_ID, ONCHAIN_UTXO_INCOMING_ID, ONCHAIN_UTXO_OUTGOING_ID};
use crate::ledger::template::{
    account_net, is_omnibus, own_accounts, balanced, lemma_paired_balanced, AccountRef, Direction, EntryDef, Layer, ParamDef, ParamType, TxTemplateDef, Units, ParamValues, EffectiveDate, TxParamValues,
};
use crate::ledger::entries::{batch_created_accounts, lemma_last_account_of_type_at, omnibus_account_ids, posted, unquoted};
use crate::ledger::templates::shared_meta::{change_total, sum_change, BatchWalletInfo, WalletTransactionSummary};
use crate::ledger::wallet_accounts::WalletLedgerAccountIds;
use crate::primitives::{LedgerJournalId, Satoshis};

verus! {

pub open spec fn batch_created_entries() -> Seq<EntryDef> {
    seq![
        EntryDef {
            entry_type: "'BATCH_CREATED_LOG_OUT_ENC_DR'",
            account: AccountRef::Param("effective_outgoing_account_id"),
            direction: Direction::Debit,
            layer: Layer::Encumbered,
            units: Units::MinusTwo("total_utxo_in", "change", "fees"),
        },
        EntryDef {
            entry_type: "'BATCH_CREATED_LOG_OUT_ENC_CR'",
            account: AccountRef::Fixed(EFFECTIVE_OUTGOING_ID),
            direction: Direction::Credit,
            layer: Layer::Encumbered,
            units: Units::MinusTwo("total_utxo_in", "change", "fees"),
        },
        EntryDef {
            entry_type: "'BATCH_CREATED_LOG_OUT_PEN_CR'",
            account: AccountRef::Param("effective_outgoing_account_id"),
            direction: Direction::Credit,
            layer: Layer::Pending,
            units: Units::MinusTwo("total_utxo_in", "change", "fees"),
        },
        EntryDef {
            entry_type: "'BATCH_CREATED_LOG_OUT_PEN_DR'",
            account: AccountRef::Fixed(EFFECTIVE_OUTGOING_ID),
            direction: Direction::Debit,
            layer: Layer::Pending,
            units: Units::MinusTwo("total_utxo_in", "change", "fees"),
        },
        EntryDef {
            entry_type: "'BATCH_CREATED_LOG_SET_DR'",
            account: AccountRef::Param("effective_at_rest_account_id"),
            direction: Direction::Debit,
            layer: Layer::Settled,
            units: Units::Minus("total_utxo_in", "change"),
        },
        EntryDef {
            entry_type: "'BATCH_CREATED_LOG_SET_CR'",
            account: AccountRef::Fixed(EFFECTIVE_AT_REST_ID),
            direction: Direction::Credit,
            layer: Layer::Settled,
            units: Units::Minus("total_utxo_in", "change"),
        },
        EntryDef {
            entry_type: "'BATCH_CREATED_FEE_PEN_DR'",
            account: AccountRef::Param("onchain_fee_account_id"),
            direction: Direction::Debit,
            layer: Layer::Pending,
            units: Units::Param("fees"),
        },
        EntryDef {
            entry_type: "'BATCH_CREATED_FEE_PEN_CR'",
            account: AccountRef::Fixed(ONCHAIN_FEE_ID),
            direction: Direction::Credit,
            layer: Layer::Pending,
            units: Units::Param("fees"),
        },
        EntryDef {
            entry_type: "'BATCH_CREATED_FR_ENC_CR'",
            account: AccountRef::Param("onchain_fee_account_id"),
            direction: Direction::Credit,
            layer: Layer::Encumbered,
            units: Units::Param("encumbered_fees"),
        },
        EntryDef {
            entry_type: "'BATCH_CREATED_FR_ENC_DR'",
            account: AccountRef::Fixed(ONCHAIN_FEE_ID),
            direction: Direction::Debit,
            layer: Layer::Encumbered,
            units: Units::Param("encumbered_fees"),
        },
        EntryDef {
            entry_type: "'BATCH_CREATED_UTX_OUT_PEN_DR'",
            account: AccountRef::Fixed(ONCHAIN_UTXO_OUTGOING_ID),
            direction: Direction::Debit,
            layer: Layer::Pending,
            units: Units::Minus("total_utxo_in", "fees"),
        },
        EntryDef {
            entry_type: "'BATCH_CREATED_UTX_OUT_PEN_CR'",
            account: AccountRef::Param("onchain_outgoing_account_id"),
            direction: Direction::Credit,
            layer: Layer::Pending,
            units: Units::Minus("total_utxo_in", "fees"),
        },
        EntryDef {
            entry_type: "'BATCH_CREATED_UTX_SET_DR'",
            account: AccountRef::Param("onchain_at_rest_account_id"),
            direction: Direction::Debit,
            layer: Layer::Settled,
            units: Units::Param("total_utxo_in"),
        },
        EntryDef {
            entry_type: "'BATCH_CREATED_UTX_SET_CR'",
            account: AccountRef::Fixed(ONCHAIN_UTXO_AT_REST_ID),
            direction: Direction::Credit,
            layer: Layer::Settled,
            units: Units::Param("total_utxo_in"),
        },
        EntryDef {
            entry_type: "'BATCH_CREATED_CHG_ENC_DR'",
            account: AccountRef::Fixed(ONCHAIN_UTXO_INCOMING_ID),
            direction: Direction::Debit,
            layer: Layer::Encumbered,
            units: Units::Param("change"),
        },
        EntryDef {
            entry_type: "'BATCH_CREATED_CHG_ENC_CR'",
            account: AccountRef::Param("onchain_income_account_id"),
            direction: Direction::Credit,
            layer: Layer::Encumbered,
            units: Units::Param("change"),
        },
    ]
}

/// The accounts of the wallet that a posting from this template names.
pub open spec fn batch_created_wallet_accounts() -> Set<Seq<char>> {
    set!["effective_outgoing_account_id"@, "effective_at_rest_account_id"@, "onchain_fee_account_id"@, "onchain_at_rest_account_id"@, "onchain_income_account_id"@, "onchain_outgoing_account_id"@]
}

/// What creating a batch does to the wallet's balances (debits less
/// credits, so a credit-normal account that receives shows a negative net):
/// what its payouts send out, the UTXOs spent less the change less the fees,
/// moves on the wallet's effective outgoing account from encumbered to
/// pending; what is spent less the change leaves its effective at-rest
/// account and all that is spent its onchain at-rest account; the fees become
/// pending on its fee account, whose encumbered fees are released; what is
/// spent less the fees becomes pending onchain outgoing, and the change is
/// encumbered as incoming; the omnibus accounts take the other side.
pub open spec fn records_created_batch(es: Seq<EntryDef>, p: ParamValues) -> bool {
    &&& account_net(es, (p.id)("effective_outgoing_account_id"@), Layer::Encumbered, p) == ((p.amount)("total_utxo_in"@) - (p.amount)("change"@) - (p.amount)("fees"@))
    &&& account_net(es, (p.id)("effective_outgoing_account_id"@), Layer::Pending, p) == -((p.amount)("total_utxo_in"@) - (p.amount)("change"@) - (p.amount)("fees"@))
    &&& account_net(es, EFFECTIVE_OUTGOING_ID, Layer::Encumbered, p) == -((p.amount)("total_utxo_in"@) - (p.amount)("change"@) - (p.amount)("fees"@))
    &&& account_net(es, EFFECTIVE_OUTGOING_ID, Layer::Pending, p) == ((p.amount)("total_utxo_in"@) - (p.amount)("change"@) - (p.amount)("fees"@))
    &&& account_net(es, (p.id)("effective_at_rest_account_id"@), Layer::Settled, p) == (p.amount)("total_utxo_in"@) - (p.amount)("change"@)
    &&& account_net(es, EFFECTIVE_AT_REST_ID, Layer::Settled, p) == -((p.amount)("total_utxo_in"@) - (p.amount)("change"@))
    &&& account_net(es, (p.id)("onchain_fee_account_id"@), Layer::Pending, p) == (p.amount)("fees"@)
    &&& account_net(es, (p.id)("onchain_fee_account_id"@), Layer::Encumbered, p) == -(p.amount)("encumbered_fees"@)
    &&& account_net(es, (p.id)("onchain_outgoing_account_id"@), Layer::Pending, p) == -((p.amount)("total_utxo_in"@) - (p.amount)("fees"@))
    &&& account_net(es, ONCHAIN_UTXO_OUTGOING_ID, Layer::Pending, p) == (p.amount)("total_utxo_in"@) - (p.amount)("fees"@)
    &&& account_net(es, (p.id)("onchain_at_rest_account_id"@), Layer::Settled, p) == (p.amount)("total_utxo_in"@)
    &&& account_net(es, ONCHAIN_UTXO_AT_REST_ID, Layer::Settled, p) == -(p.amount)("total_utxo_in"@)
    &&& account_net(es, (p.id)("onchain_income_account_id"@), Layer::Encumbered, p) == -(p.amount)("change"@)
    &&& account_net(es, ONCHAIN_UTXO_INCOMING_ID, Layer::Encumbered, p) == (p.amount)("change"@)
}

/// Creating a batch records what its payouts send out, the fees, the spent
/// UTXOs and the change on the wallet's accounts as described by
/// `records_created_batch`, whatever the posting's amounts, as long as the
/// wallet's accounts are its own.
pub proof fn lemma_batch_created_records_batch(p: ParamValues)
    requires
        own_accounts(p, batch_created_wallet_accounts()),
    ensures
        records_created_batch(batch_created_entries(), p),
{
    reveal_strlit("effective_outgoing_account_id");
    reveal_strlit("effective_at_rest_account_id");
    reveal_strlit("onchain_fee_account_id");
    reveal_strlit("onchain_at_rest_account_id");
    reveal_strlit("onchain_income_account_id");
    reveal_strlit("onchain_outgoing_account_id");
    assert("effective_outgoing_account_id"@ != "effective_at_rest_account_id"@) by { assert("effective_outgoing_account_id"@[10] != "effective_at_rest_account_id"@[10]); }
    assert("effective_outgoing_account_id"@ != "onchain_fee_account_id"@) by { assert("effective_outgoing_account_id"@[0] != "onchain_fee_account_id"@[0]); }
    assert("effective_outgoing_account_id"@ != "onchain_at_rest_account_id"@) by { assert("effective_outgoing_account_id"@[0] != "onchain_at_rest_account_id"@[0]); }
    assert("effective_outgoing_account_id"@ != "onchain_income_account_id"@) by { assert("effective_outgoing_account_id"@[0] != "onchain_income_account_id"@[0]); }
    assert("effective_outgoing_account_id"@ != "onchain_outgoing_account_id"@) by { assert("effective_outgoing_account_id"@[0] != "onchain_outgoing_account_id"@[0]); }
    assert("effective_at_rest_account_id"@ != "onchain_fee_account_id"@) by { assert("effective_at_rest_account_id"@[0] != "onchain_fee_account_id"@[0]); }
    assert("effective_at_rest_account_id"@ != "onchain_at_rest_account_id"@) by { assert("effective_at_rest_account_id"@[0] != "onchain_at_rest_account_id"@[0]); }
    assert("effective_at_rest_account_id"@ != "onchain_income_account_id"@) by { assert("effective_at_rest_account_id"@[0] != "onchain_income_account_id"@[0]); }
    assert("effective_at_rest_account_id"@ != "onchain_outgoing_account_id"@) by { assert("effective_at_rest_account_id"@[0] != "onchain_outgoing_account_id"@[0]); }
    assert("onchain_fee_account_id"@ != "onchain_at_rest_account_id"@) by { assert("onchain_fee_account_id"@[8] != "onchain_at_rest_account_id"@[8]); }
    assert("onchain_fee_account_id"@ != "onchain_income_account_id"@) by { assert("onchain_fee_account_id"@[8] != "onchain_income_account_id"@[8]); }
    assert("onchain_fee_account_id"@ != "onchain_outgoing_account_id"@) by { assert("onchain_fee_account_id"@[8] != "onchain_outgoing_account_id"@[8]); }
    assert("onchain_at_rest_account_id"@ != "onchain_income_account_id"@) by { assert("onchain_at_rest_account_id"@[8] != "onchain_income_account_id"@[8]); }
    assert("onchain_at_rest_account_id"@ != "onchain_outgoing_account_id"@) by { assert("onchain_at_rest_account_id"@[8] != "onchain_outgoing_account_id"@[8]); }
    assert("onchain_income_account_id"@ != "onchain_outgoing_account_id"@) by { assert("onchain_income_account_id"@[8] != "onchain_outgoing_account_id"@[8]); }
    assert(!is_omnibus((p.id)("effective_outgoing_account_id"@)));
    assert(!is_omnibus((p.id)("effective_at_rest_account_id"@)));
    assert(!is_omnibus((p.id)("onchain_fee_account_id"@)));
    assert(!is_omnibus((p.id)("onchain_at_rest_account_id"@)));
    assert(!is_omnibus((p.id)("onchain_income_account_id"@)));
    assert(!is_omnibus((p.id)("onchain_outgoing_account_id"@)));
    assert((p.id)("effective_outgoing_account_id"@) != (p.id)("effective_at_rest_account_id"@));
    assert((p.id)("effective_outgoing_account_id"@) != (p.id)("onchain_fee_account_id"@));
    assert((p.id)("effective_outgoing_account_id"@) != (p.id)("onchain_at_rest_account_id"@));
    assert((p.id)("effective_outgoing_account_id"@) != (p.id)("onchain_income_account_id"@));
    assert((p.id)("effective_outgoing_account_id"@) != (p.id)("onchain_outgoing_account_id"@));
    assert((p.id)("effective_at_rest_account_id"@) != (p.id)("onchain_fee_account_id"@));
    assert((p.id)("effective_at_rest_account_id"@) != (p.id)("onchain_at_rest_account_id"@));
    assert((p.id)("effective_at_rest_account_id"@) != (p.id)("onchain_income_account_id"@));
    assert((p.id)("effective_at_rest_account_id"@) != (p.id)("onchain_outgoing_account_id"@));
    assert((p.id)("onchain_fee_account_id"@) != (p.id)("onchain_at_rest_account_id"@));
    assert((p.id)("onchain_fee_account_id"@) != (p.id)("onchain_income_account_id"@));
    assert((p.id)("onchain_fee_account_id"@) != (p.id)("onchain_outgoing_account_id"@));
    assert((p.id)("onchain_at_rest_account_id"@) != (p.id)("onchain_income_account_id"@));
    assert((p.id)("onchain_at_rest_account_id"@) != (p.id)("onchain_outgoing_account_id"@));
    assert((p.id)("onchain_income_account_id"@) != (p.id)("onchain_outgoing_account_id"@));
    reveal_with_fuel(account_net, 17);
}

pub open spec fn batch_created_params() -> Seq<ParamDef> {
    seq![
        ParamDef { name: "journal_id", param_type: ParamType::Uuid, default_expr: None },
        ParamDef { name: "effective_outgoing_account_id", param_type: ParamType::Uuid, default_expr: None },
        ParamDef { name: "effective_at_rest_account_id", param_type: ParamType::Uuid, default_expr: None },
        ParamDef { name: "onchain_fee_account_id", param_type: ParamType::Uuid, default_expr: None },
        ParamDef { name: "onchain_at_rest_account_id", param_type: ParamType::Uuid, default_expr: None },
        ParamDef { name: "onchain_income_account_id", param_type: ParamType::Uuid, default_expr: None },
        ParamDef { name: "onchain_outgoing_account_id", param_type: ParamType::Uuid, default_expr: None },
        ParamDef { name: "total_utxo_in", param_type: ParamType::Decimal, default_expr: None },
        ParamDef { name: "total_utxo_settled_in", param_type: ParamType::Decimal, default_expr: None },
        ParamDef { name: "fees", param_type: ParamType::Decimal, default_expr: None },
        ParamDef { name: "change", param_type: ParamType::Decimal, default_expr: None },
        ParamDef { name: "encumbered_fees", param_type: ParamType::Decimal, default_expr: None },
        ParamDef { name: "correlation_id", param_type: ParamType::Uuid, default_expr: None },
        ParamDef { name: "meta", param_type: ParamType::Json, default_expr: None },
        ParamDef { name: "effective", param_type: ParamType::Date, default_expr: None },
    ]
}

/// A batch paying out of a wallet is built: its outgoing amounts are encumbered and pending, the spent UTXOs leave the at-rest accounts and its change is encumbered as incoming.
pub struct BatchCreated {}

impl BatchCreatedParams {
    /// The parameters the template takes.
    pub fn defs() -> (defs: Vec<ParamDef>)
        ensures
            defs@ == batch_created_params(),
    {
        let defs = vec![
            ParamDef { name: "journal_id", param_type: ParamType::Uuid, default_expr: None },
            ParamDef { name: "effective_outgoing_account_id", param_type: ParamType::Uuid, default_expr: None },
            ParamDef { name: "effective_at_rest_account_id", param_type: ParamType::Uuid, default_expr: None },
            ParamDef { name: "onchain_fee_account_id", param_type: ParamType::Uuid, default_expr: None },
            ParamDef { name: "onchain_at_rest_account_id", param_type: ParamType::Uuid, default_expr: None },
            ParamDef { name: "onchain_income_account_id", param_type: ParamType::Uuid, default_expr: None },
            ParamDef { name: "onchain_outgoing_account_id", param_type: ParamType::Uuid, default_expr: None },
            ParamDef { name: "total_utxo_in", param_type: ParamType::Decimal, default_expr: None },
            ParamDef { name: "total_utxo_settled_in", param_type: ParamType::Decimal, default_expr: None },
            ParamDef { name: "fees", param_type: ParamType::Decimal, default_expr: None },
            ParamDef { name: "change", param_type: ParamType::Decimal, default_expr: None },
            ParamDef { name: "encumbered_fees", param_type: ParamType::Decimal, default_expr: None },
            ParamDef { name: "correlation_id", param_type: ParamType::Uuid, default_expr: None },
            ParamDef { name: "meta", param_type: ParamType::Json, default_expr: None },
            ParamDef { name: "effective", param_type: ParamType::Date, default_expr: None },
        ];
        assert(defs@ =~= batch_created_params());
        defs
    }
}

impl BatchCreated {
    /// The template; its entries balance on every layer, whatever its parameters.
    pub fn template() -> (t: TxTemplateDef)
        ensures
            t.id == BATCH_CREATED_ID,
            t.code == BATCH_CREATED_CODE,
            t.description@ == "'Construct Batch'"@,
            t.with_correlation_id == true,
            t.entries@ == batch_created_entries(),
            t.params@ == batch_created_params(),
            balanced(t.entries@),
            forall|p: ParamValues| #[trigger] own_accounts(p, batch_created_wallet_accounts()) ==> records_created_batch(t.entries@, p),
    {
        let entries = vec![
            EntryDef {
                entry_type: "'BATCH_CREATED_LOG_OUT_ENC_DR'",
                account: AccountRef::Param("effective_outgoing_account_id"),
                direction: Direction::Debit,
                layer: Layer::Encumbered,
                units: Units::MinusTwo("total_utxo_in", "change", "fees"),
            },
            EntryDef {
                entry_type: "'BATCH_CREATED_LOG_OUT_ENC_CR'",
                account: AccountRef::Fixed(EFFECTIVE_OUTGOING_ID),
                direction: Direction::Credit,
                layer: Layer::Encumbered,
                units: Units::MinusTwo("total_utxo_in", "change", "fees"),
            },
            EntryDef {
                entry_type: "'BATCH_CREATED_LOG_OUT_PEN_CR'",
                account: AccountRef::Param("effective_outgoing_account_id"),
                direction: Direction::Credit,
                layer: Layer::Pending,
                units: Units::MinusTwo("total_utxo_in", "change", "fees"),
            },
            EntryDef {
                entry_type: "'BATCH_CREATED_LOG_OUT_PEN_DR'",
                account: AccountRef::Fixed(EFFECTIVE_OUTGOING_ID),
                direction: Direction::Debit,
                layer: Layer::Pending,
                units: Units::MinusTwo("total_utxo_in", "change", "fees"),
            },
            EntryDef {
                entry_type: "'BATCH_CREATED_LOG_SET_DR'",
                account: AccountRef::Param("effective_at_rest_account_id"),
                direction: Direction::Debit,
                layer: Layer::Settled,
                units: Units::Minus("total_utxo_in", "change"),
            },
            EntryDef {
                entry_type: "'BATCH_CREATED_LOG_SET_CR'",
                account: AccountRef::Fixed(EFFECTIVE_AT_REST_ID),
                direction: Direction::Credit,
                layer: Layer::Settled,
                units: Units::Minus("total_utxo_in", "change"),
            },
            EntryDef {
                entry_type: "'BATCH_CREATED_FEE_PEN_DR'",
                account: AccountRef::Param("onchain_fee_account_id"),
                direction: Direction::Debit,
                layer: Layer::Pending,
                units: Units::Param("fees"),
            },
            EntryDef {
                entry_type: "'BATCH_CREATED_FEE_PEN_CR'",
                account: AccountRef::Fixed(ONCHAIN_FEE_ID),
                direction: Direction::Credit,
                layer: Layer::Pending,
                units: Units::Param("fees"),
            },
            EntryDef {
                entry_type: "'BATCH_CREATED_FR_ENC_CR'",
                account: AccountRef::Param("onchain_fee_account_id"),
                direction: Direction::Credit,
                layer: Layer::Encumbered,
                units: Units::Param("encumbered_fees"),
            },
            EntryDef {
                entry_type: "'BATCH_CREATED_FR_ENC_DR'",
                account: AccountRef::Fixed(ONCHAIN_FEE_ID),
                direction: Direction::Debit,
                layer: Layer::Encumbered,
                units: Units::Param("encumbered_fees"),
            },
            EntryDef {
                entry_type: "'BATCH_CREATED_UTX_OUT_PEN_DR'",
                account: AccountRef::Fixed(ONCHAIN_UTXO_OUTGOING_ID),
                direction: Direction::Debit,
                layer: Layer::Pending,
                units: Units::Minus("total_utxo_in", "fees"),
            },
            EntryDef {
                entry_type: "'BATCH_CREATED_UTX_OUT_PEN_CR'",
                account: AccountRef::Param("onchain_outgoing_account_id"),
                direction: Direction::Credit,
                layer: Layer::Pending,
                units: Units::Minus("total_utxo_in", "fees"),
            },
            EntryDef {
                entry_type: "'BATCH_CREATED_UTX_SET_DR'",
                account: AccountRef::Param("onchain_at_rest_account_id"),
                direction: Direction::Debit,
                layer: Layer::Settled,
                units: Units::Param("total_utxo_in"),
            },
            EntryDef {
                entry_type: "'BATCH_CREATED_UTX_SET_CR'",
                account: AccountRef::Fixed(ONCHAIN_UTXO_AT_REST_ID),
                direction: Direction::Credit,
                layer: Layer::Settled,
                units: Units::Param("total_utxo_in"),
            },
            EntryDef {
                entry_type: "'BATCH_CREATED_CHG_ENC_DR'",
                account: AccountRef::Fixed(ONCHAIN_UTXO_INCOMING_ID),
                direction: Direction::Debit,
                layer: Layer::Encumbered,
                units: Units::Param("change"),
            },
            EntryDef {
                entry_type: "'BATCH_CREATED_CHG_ENC_CR'",
                account: AccountRef::Param("onchain_income_account_id"),
                direction: Direction::Credit,
                layer: Layer::Encumbered,
                units: Units::Param("change"),
            },
        ];
        assert(entries@ =~= batch_created_entries());
        proof {
            assert forall|p: ParamValues| #[trigger] own_accounts(p, batch_created_wallet_accounts()) implies records_created_batch(entries@, p) by {
                lemma_batch_created_records_batch(p);
            }
        }
        let params = BatchCreatedParams::defs();
        proof {
            lemma_paired_balanced(entries@);
        }
        TxTemplateDef {
            id: BATCH_CREATED_ID,
            code: BATCH_CREATED_CODE,
            description: "'Construct Batch'",
            with_correlation_id: true,
            entries,
            params,
        }
    }
}


/// What a batch's creation records for a wallet.
#[derive(Clone, Debug)]
pub struct BatchCreatedMeta {
    pub batch_info: BatchWalletInfo,
    pub tx_summary: WalletTransactionSummary,
}

#[derive(Clone, Debug)]
pub struct BatchCreatedParams {
    pub journal_id: LedgerJournalId,
    pub ledger_account_ids: WalletLedgerAccountIds,
    pub encumbered_fees: Satoshis,
    pub meta: BatchCreatedMeta,
}

impl BatchCreatedParams {
    /// The values of the posting: the wallet's spent UTXOs, its change (the
    /// total of its change outputs), its fees, and the spending fees that were
    /// encumbered for the spent UTXOs; it is correlated with the batch.
    pub fn values(&self) -> (v: TxParamValues)
        ensures
            v.ids@ == seq![
                ("journal_id", self.journal_id),
                ("effective_outgoing_account_id", self.ledger_account_ids.effective_outgoing_id),
                ("effective_at_rest_account_id", self.ledger_account_ids.effective_at_rest_id),
                ("onchain_fee_account_id", self.ledger_account_ids.fee_id),
                ("onchain_outgoing_account_id", self.ledger_account_ids.onchain_outgoing_id),
                ("onchain_income_account_id", self.ledger_account_ids.onchain_incoming_id),
                ("onchain_at_rest_account_id", self.ledger_account_ids.onchain_at_rest_id),
                ("correlation_id", self.meta.batch_info.batch_id),
            ],
            v.amounts@ == seq![
                ("total_utxo_in", self.meta.tx_summary.total_utxo_in_sats as i128),
                ("change", change_total(self.meta.tx_summary.change_utxos@) as i128),
                ("fees", self.meta.tx_summary.fee_sats as i128),
                ("encumbered_fees", self.encumbered_fees as i128),
            ],
            v.flags@ == Seq::<(&'static str, bool)>::empty(),
            v.effective == EffectiveDate::Today,
    {
        let ids = &self.ledger_account_ids;
        let change = sum_change(&self.meta.tx_summary.change_utxos);
        let v = TxParamValues {
            ids: vec![
                ("journal_id", self.journal_id),
                ("effective_outgoing_account_id", ids.effective_outgoing_id),
                ("effective_at_rest_account_id", ids.effective_at_rest_id),
                ("onchain_fee_account_id", ids.fee_id),
                ("onchain_outgoing_account_id", ids.onchain_outgoing_id),
                ("onchain_income_account_id", ids.onchain_incoming_id),
                ("onchain_at_rest_account_id", ids.onchain_at_rest_id),
                ("correlation_id", self.meta.batch_info.batch_id),
            ],
            amounts: vec![
                ("total_utxo_in", self.meta.tx_summary.total_utxo_in_sats as i128),
                ("change", change),
                ("fees", self.meta.tx_summary.fee_sats as i128),
                ("encumbered_fees", self.encumbered_fees as i128),
            ],
            flags: Vec::new(),
            effective: EffectiveDate::Today,
        };
        assert(v.ids@ =~= seq![
            ("journal_id", self.journal_id),
            ("effective_outgoing_account_id", self.ledger_account_ids.effective_outgoing_id),
            ("effective_at_rest_account_id", self.ledger_account_ids.effective_at_rest_id),
            ("onchain_fee_account_id", self.ledger_account_ids.fee_id),
            ("onchain_outgoing_account_id", self.ledger_account_ids.onchain_outgoing_id),
            ("onchain_income_account_id", self.ledger_account_ids.onchain_incoming_id),
            ("onchain_at_rest_account_id", self.ledger_account_ids.onchain_at_rest_id),
            ("correlation_id", self.meta.batch_info.batch_id),
        ]);
        assert(v.amounts@ =~= seq![
            ("total_utxo_in", self.meta.tx_summary.total_utxo_in_sats as i128),
            ("change", change_total(self.meta.tx_summary.change_utxos@) as i128),
            ("fees", self.meta.tx_summary.fee_sats as i128),
            ("encumbered_fees", self.encumbered_fees as i128),
        ]);
        v
    }
}


/// What a batch's creation posts can be read back: the entries it stores give
/// back the six wallet accounts it was posted with and its encumbered fees;
/// the two accounts it has no entry on read back as the omnibus ones.
pub proof fn lemma_batch_created_read_back(p: ParamValues)
    ensures
        batch_created_accounts(posted(batch_created_entries(), p), omnibus_account_ids()) == (
            WalletLedgerAccountIds {
                onchain_incoming_id: (p.id)("onchain_income_account_id"@),
                onchain_at_rest_id: (p.id)("onchain_at_rest_account_id"@),
                onchain_outgoing_id: (p.id)("onchain_outgoing_account_id"@),
                effective_incoming_id: EFFECTIVE_INCOMING_ID,
                effective_at_rest_id: (p.id)("effective_at_rest_account_id"@),
                effective_outgoing_id: (p.id)("effective_outgoing_account_id"@),
                fee_id: (p.id)("onchain_fee_account_id"@),
                dust_id: 0,
            },
            (p.amount)("encumbered_fees"@),
        ),
{
    let es = posted(batch_created_entries(), p);
    assert(es.len() == 16);
    reveal_strlit("'BATCH_CREATED_LOG_OUT_ENC_DR'");
    reveal_strlit("'BATCH_CREATED_LOG_OUT_ENC_CR'");
    reveal_strlit("'BATCH_CREATED_LOG_OUT_PEN_CR'");
    reveal_strlit("'BATCH_CREATED_LOG_OUT_PEN_DR'");
    reveal_strlit("'BATCH_CREATED_LOG_SET_DR'");
    reveal_strlit("'BATCH_CREATED_LOG_SET_CR'");
    reveal_strlit("'BATCH_CREATED_FEE_PEN_DR'");
    reveal_strlit("'BATCH_CREATED_FEE_PEN_CR'");
    reveal_strlit("'BATCH_CREATED_FR_ENC_CR'");
    reveal_strlit("'BATCH_CREATED_FR_ENC_DR'");
    reveal_strlit("'BATCH_CREATED_UTX_OUT_PEN_DR'");
    reveal_strlit("'BATCH_CREATED_UTX_OUT_PEN_CR'");
    reveal_strlit("'BATCH_CREATED_UTX_SET_DR'");
    reveal_strlit("'BATCH_CREATED_UTX_SET_CR'");
    reveal_strlit("'BATCH_CREATED_CHG_ENC_DR'");
    reveal_strlit("'BATCH_CREATED_CHG_ENC_CR'");
    reveal_strlit("BATCH_CREATED_LOG_SET_DR");
    reveal_strlit("BATCH_CREATED_LOG_OUT_ENC_DR");
    reveal_strlit("BATCH_CREATED_CHG_ENC_CR");
    reveal_strlit("BATCH_CREATED_UTX_OUT_PEN_CR");
    reveal_strlit("BATCH_CREATED_FR_ENC_CR");
    reveal_strlit("BATCH_CREATED_UTX_SET_DR");
    let t0 = unquoted("'BATCH_CREATED_LOG_OUT_ENC_DR'"@);
    let t1 = unquoted("'BATCH_CREATED_LOG_OUT_ENC_CR'"@);
    let t2 = unquoted("'BATCH_CREATED_LOG_OUT_PEN_CR'"@);
    let t3 = unquoted("'BATCH_CREATED_LOG_OUT_PEN_DR'"@);
    let t4 = unquoted("'BATCH_CREATED_LOG_SET_DR'"@);
    let t5 = unquoted("'BATCH_CREATED_LOG_SET_CR'"@);
    let t6 = unquoted("'BATCH_CREATED_FEE_PEN_DR'"@);
    let t7 = unquoted("'BATCH_CREATED_FEE_PEN_CR'"@);
    let t8 = unquoted("'BATCH_CREATED_FR_ENC_CR'"@);
    let t9 = unquoted("'BATCH_CREATED_FR_ENC_DR'"@);
    let t10 = unquoted("'BATCH_CREATED_UTX_OUT_PEN_DR'"@);
    let t11 = unquoted("'BATCH_CREATED_UTX_OUT_PEN_CR'"@);
    let t12 = unquoted("'BATCH_CREATED_UTX_SET_DR'"@);
    let t13 = unquoted("'BATCH_CREATED_UTX_SET_CR'"@);
    let t14 = unquoted("'BATCH_CREATED_CHG_ENC_DR'"@);
    let t15 = unquoted("'BATCH_CREATED_CHG_ENC_CR'"@);
    assert(t15 =~= "BATCH_CREATED_CHG_ENC_CR"@);
    assert forall|j: int| 15 < j < es.len() implies #[trigger] es[j].entry_type != t15 by {
    
    }
    lemma_last_account_of_type_at(es, t15, 15);
    assert(t8 =~= "BATCH_CREATED_FR_ENC_CR"@);
    assert(t9[21] == 'D' && t8[21] == 'C');
    assert(t10.len() == 28 && t8.len() == 23);
    assert(t11.len() == 28 && t8.len() == 23);
    assert(t12.len() == 24 && t8.len() == 23);
    assert(t13.len() == 24 && t8.len() == 23);
    assert(t14.len() == 24 && t8.len() == 23);
    assert(t15.len() == 24 && t8.len() == 23);
    assert forall|j: int| 8 < j < es.len() implies #[trigger] es[j].entry_type != t8 by {
        if j == 9 {} else if j == 10 {} else if j == 11 {} else if j == 12 {} else if j == 13 {} else if j == 14 {} else if j == 15 {}
    }
    lemma_last_account_of_type_at(es, t8, 8);
    assert(t0 =~= "BATCH_CREATED_LOG_OUT_ENC_DR"@);
    assert(t1[26] == 'C' && t0[26] == 'D');
    assert(t2[22] == 'P' && t0[22] == 'E');
    assert(t3[22] == 'P' && t0[22] == 'E');
    assert(t4.len() == 24 && t0.len() == 28);
    assert(t5.len() == 24 && t0.len() == 28);
    assert(t6.len() == 24 && t0.len() == 28);
    assert(t7.len() == 24 && t0.len() == 28);
    assert(t8.len() == 23 && t0.len() == 28);
    assert(t9.len() == 23 && t0.len() == 28);
    assert(t10[14] == 'U' && t0[14] == 'L');
    assert(t11[14] == 'U' && t0[14] == 'L');
    assert(t12.len() == 24 && t0.len() == 28);
    assert(t13.len() == 24 && t0.len() == 28);
    assert(t14.len() == 24 && t0.len() == 28);
    assert(t15.len() == 24 && t0.len() == 28);
    assert forall|j: int| 0 < j < es.len() implies #[trigger] es[j].entry_type != t0 by {
        if j == 1 {} else if j == 2 {} else if j == 3 {} else if j == 4 {} else if j == 5 {} else if j == 6 {} else if j == 7 {} else if j == 8 {} else if j == 9 {} else if j == 10 {} else if j == 11 {} else if j == 12 {} else if j == 13 {} else if j == 14 {} else if j == 15 {}
    }
    lemma_last_account_of_type_at(es, t0, 0);
    assert(t4 =~= "BATCH_CREATED_LOG_SET_DR"@);
    assert(t5[22] == 'C' && t4[22] == 'D');
    assert(t6[14] == 'F' && t4[14] == 'L');
    assert(t7[14] == 'F' && t4[14] == 'L');
    assert(t8.len() == 23 && t4.len() == 24);
    assert(t9.len() == 23 && t4.len() == 24);
    assert(t10.len() == 28 && t4.len() == 24);
    assert(t11.len() == 28 && t4.len() == 24);
    assert(t12[14] == 'U' && t4[14] == 'L');
    assert(t13[14] == 'U' && t4[14] == 'L');
    assert(t14[14] == 'C' && t4[14] == 'L');
    assert(t15[14] == 'C' && t4[14] == 'L');
    assert forall|j: int| 4 < j < es.len() implies #[trigger] es[j].entry_type != t4 by {
        if j == 5 {} else if j == 6 {} else if j == 7 {} else if j == 8 {} else if j == 9 {} else if j == 10 {} else if j == 11 {} else if j == 12 {} else if j == 13 {} else if j == 14 {} else if j == 15 {}
    }
    lemma_last_account_of_type_at(es, t4, 4);
    assert(t11 =~= "BATCH_CREATED_UTX_OUT_PEN_CR"@);
    assert(t12.len() == 24 && t11.len() == 28);
    assert(t13.len() == 24 && t11.len() == 28);
    assert(t14.len() == 24 && t11.len() == 28);
    assert(t15.len() == 24 && t11.len() == 28);
    assert forall|j: int| 11 < j < es.len() implies #[trigger] es[j].entry_type != t11 by {
        if j == 12 {} else if j == 13 {} else if j == 14 {} else if j == 15 {}
    }
    lemma_last_account_of_type_at(es, t11, 11);
    assert(t12 =~= "BATCH_CREATED_UTX_SET_DR"@);
    assert(t13[22] == 'C' && t12[22] == 'D');
    assert(t14[14] == 'C' && t12[14] == 'U');
    assert(t15[14] == 'C' && t12[14] == 'U');
    assert forall|j: int| 12 < j < es.len() implies #[trigger] es[j].entry_type != t12 by {
        if j == 13 {} else if j == 14 {} else if j == 15 {}
    }
    lemma_last_account_of_type_at(es, t12, 12);
}

} // verus!
