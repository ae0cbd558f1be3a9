//! A batch's transaction is broadcast: spending fees for its change are encumbered, and its change moves from encumbered to pending incoming.
use vstd::prelude::*;

use crate::ledger::constants::{BATCH_BROADCAST_CODE, BATCH_BROADCAST_ID, ONCHAIN_FEE_ID, ONCHAIN_UTXO_INCOMING_ID};
use crate::ledger::template::{
    account_net, is_omnibus, own_accounts, ParamValues,
    balanced, lemma_paired_balanced, AccountRef, Direction, EntryDef, Layer, ParamDef, ParamType,
    TxTemplateDef, Units, EffectiveDate, TxParamValues,
};
use crate::ledger::templates::shared_meta::{change_total, fees_total, sum_change, sum_fees, BatchWalletInfo, EncumberedSpendingFees, WalletTransactionSummary};
use crate::ledger::wallet_accounts::WalletLedgerAccountIds;
use crate::primitives::{LedgerJournalId, Satoshis};

verus! {

pub open spec fn batch_broadcast_entries() -> Seq<EntryDef> {
    seq![
        EntryDef {
            entry_type: "'BATCH_BROADCAST_FR_ENC_DR'",
            account: AccountRef::Param("onchain_fee_account_id"),
            direction: Direction::Debit,
            layer: Layer::Encumbered,
            units: Units::Param("encumbered_spending_fees"),
        },
        EntryDef {
            entry_type: "'BATCH_BROADCAST_FR_ENC_CR'",
            account: AccountRef::Fixed(ONCHAIN_FEE_ID),
            direction: Direction::Credit,
            layer: Layer::Encumbered,
            units: Units::Param("encumbered_spending_fees"),
        },
        EntryDef {
            entry_type: "'BATCH_BROADCAST_CHG_ENC_DR'",
            account: AccountRef::Param("onchain_income_account_id"),
            direction: Direction::Debit,
            layer: Layer::Encumbered,
            units: Units::Param("change"),
        },
        EntryDef {
            entry_type: "'BATCH_BROADCAST_CHG_ENC_CR'",
            account: AccountRef::Fixed(ONCHAIN_UTXO_INCOMING_ID),
            direction: Direction::Credit,
            layer: Layer::Encumbered,
            units: Units::Param("change"),
        },
        EntryDef {
            entry_type: "'BATCH_BROADCAST_CHG_PEN_DR'",
            account: AccountRef::Fixed(ONCHAIN_UTXO_INCOMING_ID),
            direction: Direction::Debit,
            layer: Layer::Pending,
            units: Units::Param("change"),
        },
        EntryDef {
            entry_type: "'BATCH_BROADCAST_CHG_PEN_CR'",
            account: AccountRef::Param("onchain_income_account_id"),
            direction: Direction::Credit,
            layer: Layer::Pending,
            units: Units::Param("change"),
        },
    ]
}

/// The accounts of the wallet that a posting from this template names.
pub open spec fn batch_broadcast_wallet_accounts() -> Set<Seq<char>> {
    set!["onchain_fee_account_id"@, "onchain_income_account_id"@]
}

/// What broadcasting a batch does to the wallet's balances (debits less
/// credits, so a credit-normal account that receives shows a negative net):
/// the change moves from the wallet's encumbered incoming to its pending
/// incoming, the spending fees for it are encumbered on the wallet's fee
/// account, and the omnibus accounts take the other side; nothing settles.
pub open spec fn moves_change_to_pending_incoming(es: Seq<EntryDef>, p: ParamValues) -> bool {
    &&& account_net(es, (p.id)("onchain_income_account_id"@), Layer::Encumbered, p) == (p.amount)("change"@)
    &&& account_net(es, (p.id)("onchain_income_account_id"@), Layer::Pending, p) == -(p.amount)("change"@)
    &&& account_net(es, (p.id)("onchain_income_account_id"@), Layer::Settled, p) == 0
    &&& account_net(es, ONCHAIN_UTXO_INCOMING_ID, Layer::Encumbered, p) == -(p.amount)("change"@)
    &&& account_net(es, ONCHAIN_UTXO_INCOMING_ID, Layer::Pending, p) == (p.amount)("change"@)
    &&& account_net(es, (p.id)("onchain_fee_account_id"@), Layer::Encumbered, p) == (p.amount)("encumbered_spending_fees"@)
    &&& account_net(es, ONCHAIN_FEE_ID, Layer::Encumbered, p) == -(p.amount)("encumbered_spending_fees"@)
    &&& account_net(es, (p.id)("onchain_fee_account_id"@), Layer::Pending, p) == 0
}

/// Broadcasting a batch moves its change from encumbered to pending incoming
/// for the wallet, and encumbers the spending fees for it, whatever the
/// posting's amounts, as long as the wallet's accounts are its own.
pub proof fn lemma_batch_broadcast_moves_change_to_pending_incoming(p: ParamValues)
    requires
        own_accounts(p, batch_broadcast_wallet_accounts()),
    ensures
        moves_change_to_pending_incoming(batch_broadcast_entries(), p),
{
    reveal_strlit("onchain_fee_account_id");
    reveal_strlit("onchain_income_account_id");
    assert("onchain_fee_account_id"@ != "onchain_income_account_id"@) by { assert("onchain_fee_account_id"@[8] != "onchain_income_account_id"@[8]); }
    assert(!is_omnibus((p.id)("onchain_fee_account_id"@)));
    assert(!is_omnibus((p.id)("onchain_income_account_id"@)));
    assert((p.id)("onchain_fee_account_id"@) != (p.id)("onchain_income_account_id"@));
    reveal_with_fuel(account_net, 7);
}

pub open spec fn batch_broadcast_params() -> Seq<ParamDef> {
    seq![
        ParamDef { name: "journal_id", param_type: ParamType::Uuid, default_expr: None },
        ParamDef { name: "onchain_fee_account_id", param_type: ParamType::Uuid, default_expr: None },
        ParamDef { name: "onchain_income_account_id", param_type: ParamType::Uuid, default_expr: None },
        ParamDef { name: "encumbered_spending_fees", param_type: ParamType::Decimal, default_expr: None },
        ParamDef { name: "change", param_type: ParamType::Decimal, default_expr: None },
        ParamDef { name: "correlation_id", param_type: ParamType::Uuid, default_expr: None },
        ParamDef { name: "meta", param_type: ParamType::Json, default_expr: None },
        ParamDef { name: "effective", param_type: ParamType::Date, default_expr: None },
    ]
}

/// A batch's transaction is broadcast: spending fees for its change are encumbered, and its change moves from encumbered to pending incoming.
pub struct BatchBroadcast {}

impl BatchBroadcastParams {
    /// The parameters the template takes.
    pub fn defs() -> (defs: Vec<ParamDef>)
        ensures
            defs@ == batch_broadcast_params(),
    {
        let defs = vec![
            ParamDef { name: "journal_id", param_type: ParamType::Uuid, default_expr: None },
            ParamDef { name: "onchain_fee_account_id", param_type: ParamType::Uuid, default_expr: None },
            ParamDef { name: "onchain_income_account_id", param_type: ParamType::Uuid, default_expr: None },
            ParamDef { name: "encumbered_spending_fees", param_type: ParamType::Decimal, default_expr: None },
            ParamDef { name: "change", param_type: ParamType::Decimal, default_expr: None },
            ParamDef { name: "correlation_id", param_type: ParamType::Uuid, default_expr: None },
            ParamDef { name: "meta", param_type: ParamType::Json, default_expr: None },
            ParamDef { name: "effective", param_type: ParamType::Date, default_expr: None },
        ];
        assert(defs@ =~= batch_broadcast_params());
        defs
    }
}

impl BatchBroadcast {
    /// The template; its entries balance on every layer, whatever its parameters.
    pub fn template() -> (t: TxTemplateDef)
        ensures
            t.id == BATCH_BROADCAST_ID,
            t.code == BATCH_BROADCAST_CODE,
            t.description@ == "'Submit Batch'"@,
            t.with_correlation_id == false,
            t.entries@ == batch_broadcast_entries(),
            t.params@ == batch_broadcast_params(),
            balanced(t.entries@),
            forall|p: ParamValues| #[trigger] own_accounts(p, batch_broadcast_wallet_accounts()) ==> moves_change_to_pending_incoming(t.entries@, p),
    {
        let entries = vec![
            EntryDef {
                entry_type: "'BATCH_BROADCAST_FR_ENC_DR'",
                account: AccountRef::Param("onchain_fee_account_id"),
                direction: Direction::Debit,
                layer: Layer::Encumbered,
                units: Units::Param("encumbered_spending_fees"),
            },
            EntryDef {
                entry_type: "'BATCH_BROADCAST_FR_ENC_CR'",
                account: AccountRef::Fixed(ONCHAIN_FEE_ID),
                direction: Direction::Credit,
                layer: Layer::Encumbered,
                units: Units::Param("encumbered_spending_fees"),
            },
            EntryDef {
                entry_type: "'BATCH_BROADCAST_CHG_ENC_DR'",
                account: AccountRef::Param("onchain_income_account_id"),
                direction: Direction::Debit,
                layer: Layer::Encumbered,
                units: Units::Param("change"),
            },
            EntryDef {
                entry_type: "'BATCH_BROADCAST_CHG_ENC_CR'",
                account: AccountRef::Fixed(ONCHAIN_UTXO_INCOMING_ID),
                direction: Direction::Credit,
                layer: Layer::Encumbered,
                units: Units::Param("change"),
            },
            EntryDef {
                entry_type: "'BATCH_BROADCAST_CHG_PEN_DR'",
                account: AccountRef::Fixed(ONCHAIN_UTXO_INCOMING_ID),
                direction: Direction::Debit,
                layer: Layer::Pending,
                units: Units::Param("change"),
            },
            EntryDef {
                entry_type: "'BATCH_BROADCAST_CHG_PEN_CR'",
                account: AccountRef::Param("onchain_income_account_id"),
                direction: Direction::Credit,
                layer: Layer::Pending,
                units: Units::Param("change"),
            },
        ];
        assert(entries@ =~= batch_broadcast_entries());
        proof {
            assert forall|p: ParamValues| #[trigger] own_accounts(p, batch_broadcast_wallet_accounts()) implies moves_change_to_pending_incoming(entries@, p) by {
                lemma_batch_broadcast_moves_change_to_pending_incoming(p);
            }
        }
        let params = BatchBroadcastParams::defs();
        proof {
            lemma_paired_balanced(entries@);
        }
        TxTemplateDef {
            id: BATCH_BROADCAST_ID,
            code: BATCH_BROADCAST_CODE,
            description: "'Submit Batch'",
            with_correlation_id: false,
            entries,
            params,
        }
    }
}


/// What a batch's broadcast records for a wallet.
#[derive(Clone, Debug)]
pub struct BatchBroadcastMeta {
    pub batch_info: BatchWalletInfo,
    pub encumbered_spending_fees: EncumberedSpendingFees,
    pub tx_summary: WalletTransactionSummary,
    pub withdraw_from_effective_when_settled: Vec<(crate::primitives::OutPoint, Satoshis)>,
}

#[derive(Clone, Debug)]
pub struct BatchBroadcastParams {
    pub journal_id: LedgerJournalId,
    pub ledger_account_ids: WalletLedgerAccountIds,
    pub meta: BatchBroadcastMeta,
}

impl BatchBroadcastParams {
    /// The values of the posting: the batch's change (the total of its change
    /// outputs) and the total of the spending fees encumbered for it; it is
    /// correlated with the batch.
    pub fn values(&self) -> (v: TxParamValues)
        ensures
            v.ids@ == seq![
                ("journal_id", self.journal_id),
                ("onchain_income_account_id", self.ledger_account_ids.onchain_incoming_id),
                ("onchain_fee_account_id", self.ledger_account_ids.fee_id),
                ("correlation_id", self.meta.batch_info.batch_id),
            ],
            v.amounts@ == seq![
                ("change", change_total(self.meta.tx_summary.change_utxos@) as i128),
                ("encumbered_spending_fees", fees_total(self.meta.encumbered_spending_fees@) as i128),
            ],
            v.flags@ == Seq::<(&'static str, bool)>::empty(),
            v.effective == EffectiveDate::Today,
    {
        let change = sum_change(&self.meta.tx_summary.change_utxos);
        let fees = sum_fees(&self.meta.encumbered_spending_fees);
        let v = TxParamValues {
            ids: vec![
                ("journal_id", self.journal_id),
                ("onchain_income_account_id", self.ledger_account_ids.onchain_incoming_id),
                ("onchain_fee_account_id", self.ledger_account_ids.fee_id),
                ("correlation_id", self.meta.batch_info.batch_id),
            ],
            amounts: vec![("change", change), ("encumbered_spending_fees", fees)],
            flags: Vec::new(),
            effective: EffectiveDate::Today,
        };
        assert(v.ids@ =~= seq![
            ("journal_id", self.journal_id),
            ("onchain_income_account_id", self.ledger_account_ids.onchain_incoming_id),
            ("onchain_fee_account_id", self.ledger_account_ids.fee_id),
            ("correlation_id", self.meta.batch_info.batch_id),
        ]);
        assert(v.amounts@ =~= seq![
            ("change", change_total(self.meta.tx_summary.change_utxos@) as i128),
            ("encumbered_spending_fees", fees_total(self.meta.encumbered_spending_fees@) as i128),
        ]);
        v
    }
}

} // verus!
