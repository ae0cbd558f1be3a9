//! Reverts the spent change that legacy batches settled on the onchain at-rest account.
use vstd::prelude::*;

use crate::ledger::constants::{FIX_BATCH_CREATED_LEGACY_CODE, FIX_BATCH_CREATED_LEGACY_ID, ONCHAIN_UTXO_AT_REST_ID};
use crate::ledger::template::{
    account_net, is_omnibus, own_accounts, ParamValues, balanced, lemma_paired_balanced, AccountRef, Direction, EntryDef, Layer, ParamDef, ParamType, TxTemplateDef, Units, EffectiveDate, TxParamValues,
};
use crate::primitives::{LedgerAccountId, LedgerJournalId, LedgerTransactionId};

verus! {

pub open spec fn fix_legacy_batch_created_entries() -> Seq<EntryDef> {
    seq![
        EntryDef {
            entry_type: "'FIX_LEGACY_BATCH_CREATED_CHG_SPENT_SET_DR'",
            account: AccountRef::Fixed(ONCHAIN_UTXO_AT_REST_ID),
            direction: Direction::Debit,
            layer: Layer::Settled,
            units: Units::Param("revert_amount"),
        },
        EntryDef {
            entry_type: "'FIX_LEGACY_BATCH_CREATED_CHG_SPENT_SET_CR'",
            account: AccountRef::Param("onchain_at_rest_account_id"),
            direction: Direction::Credit,
            layer: Layer::Settled,
            units: Units::Param("revert_amount"),
        },
    ]
}

/// The accounts of the wallet that a posting from this template names.
pub open spec fn fix_legacy_batch_created_wallet_accounts() -> Set<Seq<char>> {
    set!["onchain_at_rest_account_id"@]
}

/// What fixing a legacy batch does to the wallet's balances (debits less
/// credits, so a credit-normal account that receives shows a negative net):
/// the change wrongly taken out of the wallet's onchain at-rest account is
/// put back, from the omnibus account.
pub open spec fn reverts_spent_change(es: Seq<EntryDef>, p: ParamValues) -> bool {
    &&& account_net(es, (p.id)("onchain_at_rest_account_id"@), Layer::Settled, p) == -(p.amount)("revert_amount"@)
    &&& account_net(es, ONCHAIN_UTXO_AT_REST_ID, Layer::Settled, p) == (p.amount)("revert_amount"@)
    &&& account_net(es, (p.id)("onchain_at_rest_account_id"@), Layer::Pending, p) == 0
}

/// Fixing a legacy batch puts the reverted amount back on the wallet's
/// onchain at-rest account, as described by `reverts_spent_change`, whatever
/// the amount, as long as the wallet's account is its own.
pub proof fn lemma_fix_legacy_batch_created_reverts_spent_change(p: ParamValues)
    requires
        own_accounts(p, fix_legacy_batch_created_wallet_accounts()),
    ensures
        reverts_spent_change(fix_legacy_batch_created_entries(), p),
{
    reveal_strlit("onchain_at_rest_account_id");
    assert(!is_omnibus((p.id)("onchain_at_rest_account_id"@)));
    reveal_with_fuel(account_net, 3);
}

pub open spec fn fix_legacy_batch_created_params() -> Seq<ParamDef> {
    seq![
        ParamDef { name: "journal_id", param_type: ParamType::Uuid, default_expr: None },
        ParamDef { name: "onchain_at_rest_account_id", param_type: ParamType::Uuid, default_expr: None },
        ParamDef { name: "revert_amount", param_type: ParamType::Decimal, default_expr: None },
        ParamDef { name: "correlation_id", param_type: ParamType::Uuid, default_expr: None },
        ParamDef { name: "meta", param_type: ParamType::Json, default_expr: None },
        ParamDef { name: "effective", param_type: ParamType::Date, default_expr: None },
    ]
}

/// Reverts the spent change that legacy batches settled on the onchain at-rest account.
pub struct FixLegacyBatchCreated {}

impl FixLegacyBatchCreatedParams {
    /// The parameters the template takes.
    pub fn defs() -> (defs: Vec<ParamDef>)
        ensures
            defs@ == fix_legacy_batch_created_params(),
    {
        let defs = vec![
            ParamDef { name: "journal_id", param_type: ParamType::Uuid, default_expr: None },
            ParamDef { name: "onchain_at_rest_account_id", param_type: ParamType::Uuid, default_expr: None },
            ParamDef { name: "revert_amount", param_type: ParamType::Decimal, default_expr: None },
            ParamDef { name: "correlation_id", param_type: ParamType::Uuid, default_expr: None },
            ParamDef { name: "meta", param_type: ParamType::Json, default_expr: None },
            ParamDef { name: "effective", param_type: ParamType::Date, default_expr: None },
        ];
        assert(defs@ =~= fix_legacy_batch_created_params());
        defs
    }
}

impl FixLegacyBatchCreated {
    /// The template; its entries balance on every layer, whatever its parameters.
    pub fn template() -> (t: TxTemplateDef)
        ensures
            t.id == FIX_BATCH_CREATED_LEGACY_ID,
            t.code == FIX_BATCH_CREATED_LEGACY_CODE,
            t.description@ == "'Fix legacy create batch'"@,
            t.with_correlation_id == true,
            t.entries@ == fix_legacy_batch_created_entries(),
            t.params@ == fix_legacy_batch_created_params(),
            balanced(t.entries@),
            forall|p: ParamValues| #[trigger] own_accounts(p, fix_legacy_batch_created_wallet_accounts()) ==> reverts_spent_change(t.entries@, p),
    {
        let entries = vec![
            EntryDef {
                entry_type: "'FIX_LEGACY_BATCH_CREATED_CHG_SPENT_SET_DR'",
                account: AccountRef::Fixed(ONCHAIN_UTXO_AT_REST_ID),
                direction: Direction::Debit,
                layer: Layer::Settled,
                units: Units::Param("revert_amount"),
            },
            EntryDef {
                entry_type: "'FIX_LEGACY_BATCH_CREATED_CHG_SPENT_SET_CR'",
                account: AccountRef::Param("onchain_at_rest_account_id"),
                direction: Direction::Credit,
                layer: Layer::Settled,
                units: Units::Param("revert_amount"),
            },
        ];
        assert(entries@ =~= fix_legacy_batch_created_entries());
        proof {
            assert forall|p: ParamValues| #[trigger] own_accounts(p, fix_legacy_batch_created_wallet_accounts()) implies reverts_spent_change(entries@, p) by {
                lemma_fix_legacy_batch_created_reverts_spent_change(p);
            }
        }
        let params = FixLegacyBatchCreatedParams::defs();
        proof {
            lemma_paired_balanced(entries@);
        }
        TxTemplateDef {
            id: FIX_BATCH_CREATED_LEGACY_ID,
            code: FIX_BATCH_CREATED_LEGACY_CODE,
            description: "'Fix legacy create batch'",
            with_correlation_id: true,
            entries,
            params,
        }
    }
}


/// The parts of a stored ledger transaction that the fix copies.
#[derive(Clone, Copy, Debug)]
pub struct LedgerTxRecord {
    pub id: LedgerTransactionId,
    pub journal_id: LedgerJournalId,
    pub correlation_id: u128,
    /// Days since 1970-01-01.
    pub effective: u64,
}

#[derive(Clone, Debug)]
pub struct FixLegacyBatchCreatedParams {
    pub tx: LedgerTxRecord,
    pub account_id: LedgerAccountId,
    pub units: i128,
}

impl FixLegacyBatchCreatedParams {
    /// The values of the posting: the fixed transaction's journal,
    /// correlation and effective date, and the amount to revert.
    pub fn values(&self) -> (v: TxParamValues)
        ensures
            v.ids@ == seq![
                ("journal_id", self.tx.journal_id),
                ("correlation_id", self.tx.correlation_id),
                ("onchain_at_rest_account_id", self.account_id),
            ],
            v.amounts@ == seq![("revert_amount", self.units)],
            v.flags@ == Seq::<(&'static str, bool)>::empty(),
            v.effective == EffectiveDate::Day(self.tx.effective),
    {
        let v = TxParamValues {
            ids: vec![
                ("journal_id", self.tx.journal_id),
                ("correlation_id", self.tx.correlation_id),
                ("onchain_at_rest_account_id", self.account_id),
            ],
            amounts: vec![("revert_amount", self.units)],
            flags: Vec::new(),
            effective: EffectiveDate::Day(self.tx.effective),
        };
        assert(v.ids@ =~= seq![
            ("journal_id", self.tx.journal_id),
            ("correlation_id", self.tx.correlation_id),
            ("onchain_at_rest_account_id", self.account_id),
        ]);
        assert(v.amounts@ =~= seq![("revert_amount", self.units)]);
        v
    }
}

} // verus!
