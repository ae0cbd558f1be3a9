//! A UTXO that was already spent settles: its incoming amounts move to the at-rest accounts, and what the spend withdraws from the effective and onchain at-rest accounts is taken out again.
use vstd::prelude::*;

use crate::ledger::constants::{EFFECTIVE_AT_REST_ID, EFFECTIVE_INCOMING_ID, ONCHAIN_UTXO_AT_REST_ID, ONCHAIN_UTXO_INCOMING_ID, SPENT_UTXO_SETTLED_CODE, SPENT_UTXO_SETTLED_ID};
use crate::ledger::template::{
    account_net, is_omnibus, own_accounts, ParamValues,
    balanced, lemma_paired_balanced, AccountRef, Direction, EntryDef, Layer, ParamDef, ParamType,
    TxTemplateDef, Units,
};

verus! {

pub open spec fn spent_utxo_settled_entries() -> Seq<EntryDef> {
    seq![
        EntryDef {
            entry_type: "'SPENT_UTXO_SETTLED_LOG_IN_PEN_DR'",
            account: AccountRef::Param("effective_incoming_account_id"),
            direction: Direction::Debit,
            layer: Layer::Pending,
            units: Units::Param("amount"),
        },
        EntryDef {
            entry_type: "'SPENT_UTXO_SETTLED_LOG_IN_PEN_CR'",
            account: AccountRef::Fixed(EFFECTIVE_INCOMING_ID),
            direction: Direction::Credit,
            layer: Layer::Pending,
            units: Units::Param("amount"),
        },
        EntryDef {
            entry_type: "'SPENT_UTXO_SETTLED_LOG_SET_DR'",
            account: AccountRef::Fixed(EFFECTIVE_AT_REST_ID),
            direction: Direction::Debit,
            layer: Layer::Settled,
            units: Units::Param("amount"),
        },
        EntryDef {
            entry_type: "'SPENT_UTXO_SETTLED_LOG_SET_CR'",
            account: AccountRef::Param("effective_at_rest_account_id"),
            direction: Direction::Credit,
            layer: Layer::Settled,
            units: Units::Param("amount"),
        },
        EntryDef {
            entry_type: "'SPENT_UTXO_SETTLED_LOG_SET_DR'",
            account: AccountRef::Param("effective_at_rest_account_id"),
            direction: Direction::Debit,
            layer: Layer::Settled,
            units: Units::Param("withdraw_from_effective_settled"),
        },
        EntryDef {
            entry_type: "'SPENT_UTXO_SETTLED_LOG_SET_CR'",
            account: AccountRef::Fixed(EFFECTIVE_AT_REST_ID),
            direction: Direction::Credit,
            layer: Layer::Settled,
            units: Units::Param("withdraw_from_effective_settled"),
        },
        EntryDef {
            entry_type: "'SPENT_UTXO_SETTLED_UTX_IN_PEN_DR'",
            account: AccountRef::Param("onchain_incoming_account_id"),
            direction: Direction::Debit,
            layer: Layer::Pending,
            units: Units::Param("amount"),
        },
        EntryDef {
            entry_type: "'SPENT_UTXO_SETTLED_UTX_IN_PEN_CR'",
            account: AccountRef::Fixed(ONCHAIN_UTXO_INCOMING_ID),
            direction: Direction::Credit,
            layer: Layer::Pending,
            units: Units::Param("amount"),
        },
        EntryDef {
            entry_type: "'SPENT_UTXO_SETTLED_UTX_SET_DR'",
            account: AccountRef::Fixed(ONCHAIN_UTXO_AT_REST_ID),
            direction: Direction::Debit,
            layer: Layer::Settled,
            units: Units::Param("amount"),
        },
        EntryDef {
            entry_type: "'SPENT_UTXO_SETTLED_UTX_SET_CR'",
            account: AccountRef::Param("onchain_at_rest_account_id"),
            direction: Direction::Credit,
            layer: Layer::Settled,
            units: Units::Param("amount"),
        },
        EntryDef {
            entry_type: "'SPENT_UTXO_SETTLED_UTX_SET_DR'",
            account: AccountRef::Param("onchain_at_rest_account_id"),
            direction: Direction::Debit,
            layer: Layer::Settled,
            units: Units::Param("amount"),
        },
        EntryDef {
            entry_type: "'SPENT_UTXO_SETTLED_UTX_SET_CR'",
            account: AccountRef::Fixed(ONCHAIN_UTXO_AT_REST_ID),
            direction: Direction::Credit,
            layer: Layer::Settled,
            units: Units::Param("amount"),
        },
    ]
}

/// The accounts of the wallet that a posting from this template names.
pub open spec fn spent_utxo_settled_wallet_accounts() -> Set<Seq<char>> {
    set!["onchain_incoming_account_id"@, "onchain_at_rest_account_id"@, "effective_incoming_account_id"@, "effective_at_rest_account_id"@]
}

/// What settling an already spent UTXO does to the wallet's balances
/// (debits less credits, so a credit-normal account that receives shows a
/// negative net): its amount leaves the pending layer of the effective and
/// onchain incoming accounts; the effective at-rest account receives the
/// amount less what the spend withdraws from it once this UTXO settles; the
/// onchain at-rest account receives it and gives it up again, the UTXO being
/// spent.
pub open spec fn settles_spent_utxo(es: Seq<EntryDef>, p: ParamValues) -> bool {
    &&& account_net(es, (p.id)("effective_incoming_account_id"@), Layer::Pending, p) == (p.amount)("amount"@)
    &&& account_net(es, (p.id)("onchain_incoming_account_id"@), Layer::Pending, p) == (p.amount)("amount"@)
    &&& account_net(es, (p.id)("effective_at_rest_account_id"@), Layer::Settled, p)
        == -((p.amount)("amount"@) - (p.amount)("withdraw_from_effective_settled"@))
    &&& account_net(es, EFFECTIVE_AT_REST_ID, Layer::Settled, p) == (p.amount)("amount"@) - (p.amount)("withdraw_from_effective_settled"@)
    &&& account_net(es, (p.id)("onchain_at_rest_account_id"@), Layer::Settled, p) == 0
    &&& account_net(es, (p.id)("effective_at_rest_account_id"@), Layer::Pending, p) == 0
}

/// Settling an already spent UTXO leaves the wallet's effective at-rest
/// account up by the UTXO's amount less what its spend withdraws once it
/// settles, as described by `settles_spent_utxo`, whatever the posting's
/// amounts, as long as the wallet's accounts are its own.
pub proof fn lemma_spent_utxo_settled_withdraws_what_the_spend_allocated(p: ParamValues)
    requires
        own_accounts(p, spent_utxo_settled_wallet_accounts()),
    ensures
        settles_spent_utxo(spent_utxo_settled_entries(), p),
{
    reveal_strlit("onchain_incoming_account_id");
    reveal_strlit("onchain_at_rest_account_id");
    reveal_strlit("effective_incoming_account_id");
    reveal_strlit("effective_at_rest_account_id");
    assert("onchain_incoming_account_id"@ != "onchain_at_rest_account_id"@) by { assert("onchain_incoming_account_id"@[8] != "onchain_at_rest_account_id"@[8]); }
    assert("onchain_incoming_account_id"@ != "effective_incoming_account_id"@) by { assert("onchain_incoming_account_id"@[0] != "effective_incoming_account_id"@[0]); }
    assert("onchain_incoming_account_id"@ != "effective_at_rest_account_id"@) by { assert("onchain_incoming_account_id"@[0] != "effective_at_rest_account_id"@[0]); }
    assert("onchain_at_rest_account_id"@ != "effective_incoming_account_id"@) by { assert("onchain_at_rest_account_id"@[0] != "effective_incoming_account_id"@[0]); }
    assert("onchain_at_rest_account_id"@ != "effective_at_rest_account_id"@) by { assert("onchain_at_rest_account_id"@[0] != "effective_at_rest_account_id"@[0]); }
    assert("effective_incoming_account_id"@ != "effective_at_rest_account_id"@) by { assert("effective_incoming_account_id"@[10] != "effective_at_rest_account_id"@[10]); }
    assert(!is_omnibus((p.id)("onchain_incoming_account_id"@)));
    assert(!is_omnibus((p.id)("onchain_at_rest_account_id"@)));
    assert(!is_omnibus((p.id)("effective_incoming_account_id"@)));
    assert(!is_omnibus((p.id)("effective_at_rest_account_id"@)));
    assert((p.id)("onchain_incoming_account_id"@) != (p.id)("onchain_at_rest_account_id"@));
    assert((p.id)("onchain_incoming_account_id"@) != (p.id)("effective_incoming_account_id"@));
    assert((p.id)("onchain_incoming_account_id"@) != (p.id)("effective_at_rest_account_id"@));
    assert((p.id)("onchain_at_rest_account_id"@) != (p.id)("effective_incoming_account_id"@));
    assert((p.id)("onchain_at_rest_account_id"@) != (p.id)("effective_at_rest_account_id"@));
    assert((p.id)("effective_incoming_account_id"@) != (p.id)("effective_at_rest_account_id"@));
    reveal_with_fuel(account_net, 13);
}

pub open spec fn spent_utxo_settled_params() -> Seq<ParamDef> {
    seq![
        ParamDef { name: "journal_id", param_type: ParamType::Uuid, default_expr: None },
        ParamDef { name: "onchain_incoming_account_id", param_type: ParamType::Uuid, default_expr: None },
        ParamDef { name: "onchain_at_rest_account_id", param_type: ParamType::Uuid, default_expr: None },
        ParamDef { name: "effective_incoming_account_id", param_type: ParamType::Uuid, default_expr: None },
        ParamDef { name: "effective_at_rest_account_id", param_type: ParamType::Uuid, default_expr: None },
        ParamDef { name: "amount", param_type: ParamType::Decimal, default_expr: None },
        ParamDef { name: "correlation_id", param_type: ParamType::Uuid, default_expr: None },
        ParamDef { name: "meta", param_type: ParamType::Json, default_expr: None },
        ParamDef { name: "effective", param_type: ParamType::Date, default_expr: None },
        ParamDef { name: "withdraw_from_effective_settled", param_type: ParamType::Decimal, default_expr: Some("decimal('0')") },
    ]
}

/// A UTXO that was already spent settles: its incoming amounts move to the at-rest accounts, and what the spend withdraws from the effective and onchain at-rest accounts is taken out again.
pub struct SpentUtxoSettled {}

impl SpentUtxoSettled {
    /// The template; its entries balance on every layer, whatever its parameters.
    pub fn template() -> (t: TxTemplateDef)
        ensures
            t.id == SPENT_UTXO_SETTLED_ID,
            t.code == SPENT_UTXO_SETTLED_CODE,
            t.description@ == "'Onchain tx confirmed'"@,
            t.with_correlation_id == true,
            t.entries@ == spent_utxo_settled_entries(),
            t.params@ == spent_utxo_settled_params(),
            balanced(t.entries@),
            forall|p: ParamValues| #[trigger] own_accounts(p, spent_utxo_settled_wallet_accounts()) ==> settles_spent_utxo(t.entries@, p),
    {
        let entries = vec![
            EntryDef {
                entry_type: "'SPENT_UTXO_SETTLED_LOG_IN_PEN_DR'",
                account: AccountRef::Param("effective_incoming_account_id"),
                direction: Direction::Debit,
                layer: Layer::Pending,
                units: Units::Param("amount"),
            },
            EntryDef {
                entry_type: "'SPENT_UTXO_SETTLED_LOG_IN_PEN_CR'",
                account: AccountRef::Fixed(EFFECTIVE_INCOMING_ID),
                direction: Direction::Credit,
                layer: Layer::Pending,
                units: Units::Param("amount"),
            },
            EntryDef {
                entry_type: "'SPENT_UTXO_SETTLED_LOG_SET_DR'",
                account: AccountRef::Fixed(EFFECTIVE_AT_REST_ID),
                direction: Direction::Debit,
                layer: Layer::Settled,
                units: Units::Param("amount"),
            },
            EntryDef {
                entry_type: "'SPENT_UTXO_SETTLED_LOG_SET_CR'",
                account: AccountRef::Param("effective_at_rest_account_id"),
                direction: Direction::Credit,
                layer: Layer::Settled,
                units: Units::Param("amount"),
            },
            EntryDef {
                entry_type: "'SPENT_UTXO_SETTLED_LOG_SET_DR'",
                account: AccountRef::Param("effective_at_rest_account_id"),
                direction: Direction::Debit,
                layer: Layer::Settled,
                units: Units::Param("withdraw_from_effective_settled"),
            },
            EntryDef {
                entry_type: "'SPENT_UTXO_SETTLED_LOG_SET_CR'",
                account: AccountRef::Fixed(EFFECTIVE_AT_REST_ID),
                direction: Direction::Credit,
                layer: Layer::Settled,
                units: Units::Param("withdraw_from_effective_settled"),
            },
            EntryDef {
                entry_type: "'SPENT_UTXO_SETTLED_UTX_IN_PEN_DR'",
                account: AccountRef::Param("onchain_incoming_account_id"),
                direction: Direction::Debit,
                layer: Layer::Pending,
                units: Units::Param("amount"),
            },
            EntryDef {
                entry_type: "'SPENT_UTXO_SETTLED_UTX_IN_PEN_CR'",
                account: AccountRef::Fixed(ONCHAIN_UTXO_INCOMING_ID),
                direction: Direction::Credit,
                layer: Layer::Pending,
                units: Units::Param("amount"),
            },
            EntryDef {
                entry_type: "'SPENT_UTXO_SETTLED_UTX_SET_DR'",
                account: AccountRef::Fixed(ONCHAIN_UTXO_AT_REST_ID),
                direction: Direction::Debit,
                layer: Layer::Settled,
                units: Units::Param("amount"),
            },
            EntryDef {
                entry_type: "'SPENT_UTXO_SETTLED_UTX_SET_CR'",
                account: AccountRef::Param("onchain_at_rest_account_id"),
                direction: Direction::Credit,
                layer: Layer::Settled,
                units: Units::Param("amount"),
            },
            EntryDef {
                entry_type: "'SPENT_UTXO_SETTLED_UTX_SET_DR'",
                account: AccountRef::Param("onchain_at_rest_account_id"),
                direction: Direction::Debit,
                layer: Layer::Settled,
                units: Units::Param("amount"),
            },
            EntryDef {
                entry_type: "'SPENT_UTXO_SETTLED_UTX_SET_CR'",
                account: AccountRef::Fixed(ONCHAIN_UTXO_AT_REST_ID),
                direction: Direction::Credit,
                layer: Layer::Settled,
                units: Units::Param("amount"),
            },
        ];
        assert(entries@ =~= spent_utxo_settled_entries());
        proof {
            assert forall|p: ParamValues| #[trigger] own_accounts(p, spent_utxo_settled_wallet_accounts()) implies settles_spent_utxo(entries@, p) by {
                lemma_spent_utxo_settled_withdraws_what_the_spend_allocated(p);
            }
        }
        let params = vec![
            ParamDef { name: "journal_id", param_type: ParamType::Uuid, default_expr: None },
            ParamDef { name: "onchain_incoming_account_id", param_type: ParamType::Uuid, default_expr: None },
            ParamDef { name: "onchain_at_rest_account_id", param_type: ParamType::Uuid, default_expr: None },
            ParamDef { name: "effective_incoming_account_id", param_type: ParamType::Uuid, default_expr: None },
            ParamDef { name: "effective_at_rest_account_id", param_type: ParamType::Uuid, default_expr: None },
            ParamDef { name: "amount", param_type: ParamType::Decimal, default_expr: None },
            ParamDef { name: "correlation_id", param_type: ParamType::Uuid, default_expr: None },
            ParamDef { name: "meta", param_type: ParamType::Json, default_expr: None },
            ParamDef { name: "effective", param_type: ParamType::Date, default_expr: None },
            ParamDef { name: "withdraw_from_effective_settled", param_type: ParamType::Decimal, default_expr: Some("decimal('0')") },
        ];
        assert(params@ =~= spent_utxo_settled_params());
        proof {
            lemma_paired_balanced(entries@);
        }
        TxTemplateDef {
            id: SPENT_UTXO_SETTLED_ID,
            code: SPENT_UTXO_SETTLED_CODE,
            description: "'Onchain tx confirmed'",
            with_correlation_id: true,
            entries,
            params,
        }
    }
}

} // verus!
