//! A spending transaction confirms: its pending outgoing, fee and change amounts settle.
use vstd::prelude::*;

use crate::ledger::constants::{EFFECTIVE_OUTGOING_ID, ONCHAIN_FEE_ID, ONCHAIN_UTXO_AT_REST_ID, ONCHAIN_UTXO_INCOMING_ID, ONCHAIN_UTXO_OUTGOING_ID, SPEND_SETTLED_CODE, SPEND_SETTLED_ID};
use crate::ledger::template::{
    account_net, is_omnibus, own_accounts, ParamValues,
    balanced, lemma_paired_balanced, AccountRef, Direction, EntryDef, Layer, ParamDef, ParamType,
    TxTemplateDef, Units, day_of, effective_date, EffectiveDate, TxParamValues,
};
use crate::ledger::templates::shared_meta::{change_total, sum_change, BatchWalletInfo, WalletTransactionSummary};
use crate::ledger::wallet_accounts::WalletLedgerAccountIds;
use crate::primitives::{BlockTime, LedgerJournalId, LedgerTransactionId};

verus! {

pub open spec fn spend_settled_entries() -> Seq<EntryDef> {
    seq![
        EntryDef {
            entry_type: "'SPEND_SETTLED_LOGICAL_PENDING_DR'",
            account: AccountRef::Param("logical_outgoing_account_id"),
            direction: Direction::Debit,
            layer: Layer::Pending,
            units: Units::MinusTwo("total_utxo_in", "change", "fees"),
        },
        EntryDef {
            entry_type: "'SPEND_SETTLED_LOGICAL_PENDING_CR'",
            account: AccountRef::Fixed(EFFECTIVE_OUTGOING_ID),
            direction: Direction::Credit,
            layer: Layer::Pending,
            units: Units::MinusTwo("total_utxo_in", "change", "fees"),
        },
        EntryDef {
            entry_type: "'SPEND_SETTLED_LOGICAL_SETTLED_DR'",
            account: AccountRef::Fixed(EFFECTIVE_OUTGOING_ID),
            direction: Direction::Debit,
            layer: Layer::Settled,
            units: Units::MinusTwo("total_utxo_in", "change", "fees"),
        },
        EntryDef {
            entry_type: "'SPEND_SETTLED_LOGICAL_SETTLED_CR'",
            account: AccountRef::Param("logical_outgoing_account_id"),
            direction: Direction::Credit,
            layer: Layer::Settled,
            units: Units::MinusTwo("total_utxo_in", "change", "fees"),
        },
        EntryDef {
            entry_type: "'SPEND_SETTLED_FEE_PENDING_DR'",
            account: AccountRef::Fixed(ONCHAIN_FEE_ID),
            direction: Direction::Debit,
            layer: Layer::Pending,
            units: Units::Param("fees"),
        },
        EntryDef {
            entry_type: "'SPEND_SETTLED_FEE_PENDING_CR'",
            account: AccountRef::Param("onchain_fee_account_id"),
            direction: Direction::Credit,
            layer: Layer::Pending,
            units: Units::Param("fees"),
        },
        EntryDef {
            entry_type: "'SPEND_SETTLED_FEE_SETTLED_DR'",
            account: AccountRef::Param("onchain_fee_account_id"),
            direction: Direction::Debit,
            layer: Layer::Settled,
            units: Units::Param("fees"),
        },
        EntryDef {
            entry_type: "'SPEND_SETTLED_FEE_SETTLED_CR'",
            account: AccountRef::Fixed(ONCHAIN_FEE_ID),
            direction: Direction::Credit,
            layer: Layer::Settled,
            units: Units::Param("fees"),
        },
        EntryDef {
            entry_type: "'SPEND_SETTLED_UTXO_PENDING_DR'",
            account: AccountRef::Param("onchain_outgoing_account_id"),
            direction: Direction::Debit,
            layer: Layer::Pending,
            units: Units::Minus("total_utxo_in", "fees"),
        },
        EntryDef {
            entry_type: "'SPEND_SETTLED_UTXO_PENDING_CR'",
            account: AccountRef::Fixed(ONCHAIN_UTXO_OUTGOING_ID),
            direction: Direction::Credit,
            layer: Layer::Pending,
            units: Units::Minus("total_utxo_in", "fees"),
        },
        EntryDef {
            entry_type: "'SPEND_SETTLED_UTXO_SETTLED_DR'",
            account: AccountRef::Fixed(ONCHAIN_UTXO_OUTGOING_ID),
            direction: Direction::Debit,
            layer: Layer::Settled,
            units: Units::Minus("total_utxo_in", "fees"),
        },
        EntryDef {
            entry_type: "'SPEND_SETTLED_UTXO_SETTLED_CR'",
            account: AccountRef::Param("onchain_outgoing_account_id"),
            direction: Direction::Credit,
            layer: Layer::Settled,
            units: Units::Minus("total_utxo_in", "fees"),
        },
        EntryDef {
            entry_type: "'SPEND_SETTLED_UTXO_PENDING_DR'",
            account: AccountRef::Param("onchain_income_account_id"),
            direction: Direction::Debit,
            layer: Layer::Pending,
            units: Units::Param("change"),
        },
        EntryDef {
            entry_type: "'SPEND_SETTLED_UTXO_PENDING_CR'",
            account: AccountRef::Fixed(ONCHAIN_UTXO_INCOMING_ID),
            direction: Direction::Credit,
            layer: Layer::Pending,
            units: Units::Param("change"),
        },
        EntryDef {
            entry_type: "'SPEND_SETTLED_UTXO_SETTLED_DR'",
            account: AccountRef::Fixed(ONCHAIN_UTXO_AT_REST_ID),
            direction: Direction::Debit,
            layer: Layer::Settled,
            units: Units::Param("change"),
        },
        EntryDef {
            entry_type: "'SPEND_SETTLED_UTXO_SETTLED_CR'",
            account: AccountRef::Param("onchain_at_rest_account_id"),
            direction: Direction::Credit,
            layer: Layer::Settled,
            units: Units::Param("change"),
        },
        EntryDef {
            entry_type: "'SPEND_SETTLED_UTXO_SETTLED_DR'",
            account: AccountRef::Param("onchain_at_rest_account_id"),
            direction: Direction::Debit,
            layer: Layer::Settled,
            units: Units::IfElseZero("change_spent", "change"),
        },
        EntryDef {
            entry_type: "'SPEND_SETTLED_UTXO_SETTLED_CR'",
            account: AccountRef::Fixed(ONCHAIN_UTXO_AT_REST_ID),
            direction: Direction::Credit,
            layer: Layer::Settled,
            units: Units::IfElseZero("change_spent", "change"),
        },
    ]
}

/// The accounts of the wallet that a posting from this template names.
pub open spec fn spend_settled_wallet_accounts() -> Set<Seq<char>> {
    set!["logical_outgoing_account_id"@, "onchain_fee_account_id"@, "onchain_outgoing_account_id"@, "onchain_at_rest_account_id"@, "onchain_income_account_id"@]
}

/// What settling a spend does to the wallet's balances (debits less
/// credits, so a credit-normal account that receives shows a negative net):
/// what the wallet's users sent out, the UTXOs spent less the change less
/// the fees, leaves the pending layer of its effective outgoing account and
/// arrives on the settled layer, the same amount; likewise the fees on its
/// fee account and what was spent less the fees on its onchain outgoing
/// account; the pending change leaves its onchain incoming account and
/// arrives at rest, to leave again at once when the change was spent too.
pub open spec fn settles_spend(es: Seq<EntryDef>, p: ParamValues) -> bool {
    &&& account_net(es, (p.id)("logical_outgoing_account_id"@), Layer::Pending, p) == ((p.amount)("total_utxo_in"@) - (p.amount)("change"@) - (p.amount)("fees"@))
    &&& account_net(es, (p.id)("logical_outgoing_account_id"@), Layer::Settled, p) == -((p.amount)("total_utxo_in"@) - (p.amount)("change"@) - (p.amount)("fees"@))
    &&& account_net(es, EFFECTIVE_OUTGOING_ID, Layer::Pending, p) == -((p.amount)("total_utxo_in"@) - (p.amount)("change"@) - (p.amount)("fees"@))
    &&& account_net(es, EFFECTIVE_OUTGOING_ID, Layer::Settled, p) == ((p.amount)("total_utxo_in"@) - (p.amount)("change"@) - (p.amount)("fees"@))
    &&& account_net(es, (p.id)("onchain_fee_account_id"@), Layer::Pending, p) == -(p.amount)("fees"@)
    &&& account_net(es, (p.id)("onchain_fee_account_id"@), Layer::Settled, p) == (p.amount)("fees"@)
    &&& account_net(es, (p.id)("onchain_outgoing_account_id"@), Layer::Pending, p) == (p.amount)("total_utxo_in"@) - (p.amount)("fees"@)
    &&& account_net(es, (p.id)("onchain_outgoing_account_id"@), Layer::Settled, p) == -((p.amount)("total_utxo_in"@) - (p.amount)("fees"@))
    &&& account_net(es, (p.id)("onchain_income_account_id"@), Layer::Pending, p) == (p.amount)("change"@)
    &&& account_net(es, (p.id)("onchain_at_rest_account_id"@), Layer::Settled, p) == -(p.amount)("change"@) + if (p.flag)("change_spent"@) {
        (p.amount)("change"@)
    } else {
        0
    }
}

/// Settling a spend moves what the wallet's users sent out, the fees and
/// what was spent from pending to settled, in equal amounts, and settles the
/// change, as described by `settles_spend`, whatever the posting's amounts
/// and flag, as long as the wallet's accounts are its own.
pub proof fn lemma_spend_settled_settles_spend(p: ParamValues)
    requires
        own_accounts(p, spend_settled_wallet_accounts()),
    ensures
        settles_spend(spend_settled_entries(), p),
{
    reveal_strlit("logical_outgoing_account_id");
    reveal_strlit("onchain_fee_account_id");
    reveal_strlit("onchain_outgoing_account_id");
    reveal_strlit("onchain_at_rest_account_id");
    reveal_strlit("onchain_income_account_id");
    assert("logical_outgoing_account_id"@ != "onchain_fee_account_id"@) by { assert("logical_outgoing_account_id"@[0] != "onchain_fee_account_id"@[0]); }
    assert("logical_outgoing_account_id"@ != "onchain_outgoing_account_id"@) by { assert("logical_outgoing_account_id"@[0] != "onchain_outgoing_account_id"@[0]); }
    assert("logical_outgoing_account_id"@ != "onchain_at_rest_account_id"@) by { assert("logical_outgoing_account_id"@[0] != "onchain_at_rest_account_id"@[0]); }
    assert("logical_outgoing_account_id"@ != "onchain_income_account_id"@) by { assert("logical_outgoing_account_id"@[0] != "onchain_income_account_id"@[0]); }
    assert("onchain_fee_account_id"@ != "onchain_outgoing_account_id"@) by { assert("onchain_fee_account_id"@[8] != "onchain_outgoing_account_id"@[8]); }
    assert("onchain_fee_account_id"@ != "onchain_at_rest_account_id"@) by { assert("onchain_fee_account_id"@[8] != "onchain_at_rest_account_id"@[8]); }
    assert("onchain_fee_account_id"@ != "onchain_income_account_id"@) by { assert("onchain_fee_account_id"@[8] != "onchain_income_account_id"@[8]); }
    assert("onchain_outgoing_account_id"@ != "onchain_at_rest_account_id"@) by { assert("onchain_outgoing_account_id"@[8] != "onchain_at_rest_account_id"@[8]); }
    assert("onchain_outgoing_account_id"@ != "onchain_income_account_id"@) by { assert("onchain_outgoing_account_id"@[8] != "onchain_income_account_id"@[8]); }
    assert("onchain_at_rest_account_id"@ != "onchain_income_account_id"@) by { assert("onchain_at_rest_account_id"@[8] != "onchain_income_account_id"@[8]); }
    assert(!is_omnibus((p.id)("logical_outgoing_account_id"@)));
    assert(!is_omnibus((p.id)("onchain_fee_account_id"@)));
    assert(!is_omnibus((p.id)("onchain_outgoing_account_id"@)));
    assert(!is_omnibus((p.id)("onchain_at_rest_account_id"@)));
    assert(!is_omnibus((p.id)("onchain_income_account_id"@)));
    assert((p.id)("logical_outgoing_account_id"@) != (p.id)("onchain_fee_account_id"@));
    assert((p.id)("logical_outgoing_account_id"@) != (p.id)("onchain_outgoing_account_id"@));
    assert((p.id)("logical_outgoing_account_id"@) != (p.id)("onchain_at_rest_account_id"@));
    assert((p.id)("logical_outgoing_account_id"@) != (p.id)("onchain_income_account_id"@));
    assert((p.id)("onchain_fee_account_id"@) != (p.id)("onchain_outgoing_account_id"@));
    assert((p.id)("onchain_fee_account_id"@) != (p.id)("onchain_at_rest_account_id"@));
    assert((p.id)("onchain_fee_account_id"@) != (p.id)("onchain_income_account_id"@));
    assert((p.id)("onchain_outgoing_account_id"@) != (p.id)("onchain_at_rest_account_id"@));
    assert((p.id)("onchain_outgoing_account_id"@) != (p.id)("onchain_income_account_id"@));
    assert((p.id)("onchain_at_rest_account_id"@) != (p.id)("onchain_income_account_id"@));
    reveal_with_fuel(account_net, 19);
}

pub open spec fn spend_settled_params() -> Seq<ParamDef> {
    seq![
        ParamDef { name: "journal_id", param_type: ParamType::Uuid, default_expr: None },
        ParamDef { name: "logical_outgoing_account_id", param_type: ParamType::Uuid, default_expr: None },
        ParamDef { name: "onchain_fee_account_id", param_type: ParamType::Uuid, default_expr: None },
        ParamDef { name: "onchain_outgoing_account_id", param_type: ParamType::Uuid, default_expr: None },
        ParamDef { name: "onchain_at_rest_account_id", param_type: ParamType::Uuid, default_expr: None },
        ParamDef { name: "onchain_income_account_id", param_type: ParamType::Uuid, default_expr: None },
        ParamDef { name: "fees", param_type: ParamType::Decimal, default_expr: None },
        ParamDef { name: "total_utxo_in", param_type: ParamType::Decimal, default_expr: None },
        ParamDef { name: "change", param_type: ParamType::Decimal, default_expr: None },
        ParamDef { name: "change_spent", param_type: ParamType::Boolean, default_expr: None },
        ParamDef { name: "correlation_id", param_type: ParamType::Uuid, default_expr: None },
        ParamDef { name: "meta", param_type: ParamType::Json, default_expr: None },
        ParamDef { name: "effective", param_type: ParamType::Date, default_expr: None },
    ]
}

/// A spending transaction confirms: its pending outgoing, fee and change amounts settle.
pub struct SpendSettled {}

impl SpendSettledParams {
    /// The parameters the template takes.
    pub fn defs() -> (defs: Vec<ParamDef>)
        ensures
            defs@ == spend_settled_params(),
    {
        let defs = vec![
            ParamDef { name: "journal_id", param_type: ParamType::Uuid, default_expr: None },
            ParamDef { name: "logical_outgoing_account_id", param_type: ParamType::Uuid, default_expr: None },
            ParamDef { name: "onchain_fee_account_id", param_type: ParamType::Uuid, default_expr: None },
            ParamDef { name: "onchain_outgoing_account_id", param_type: ParamType::Uuid, default_expr: None },
            ParamDef { name: "onchain_at_rest_account_id", param_type: ParamType::Uuid, default_expr: None },
            ParamDef { name: "onchain_income_account_id", param_type: ParamType::Uuid, default_expr: None },
            ParamDef { name: "fees", param_type: ParamType::Decimal, default_expr: None },
            ParamDef { name: "total_utxo_in", param_type: ParamType::Decimal, default_expr: None },
            ParamDef { name: "change", param_type: ParamType::Decimal, default_expr: None },
            ParamDef { name: "change_spent", param_type: ParamType::Boolean, default_expr: None },
            ParamDef { name: "correlation_id", param_type: ParamType::Uuid, default_expr: None },
            ParamDef { name: "meta", param_type: ParamType::Json, default_expr: None },
            ParamDef { name: "effective", param_type: ParamType::Date, default_expr: None },
        ];
        assert(defs@ =~= spend_settled_params());
        defs
    }
}

impl SpendSettled {
    /// The template; its entries balance on every layer, whatever its parameters.
    pub fn template() -> (t: TxTemplateDef)
        ensures
            t.id == SPEND_SETTLED_ID,
            t.code == SPEND_SETTLED_CODE,
            t.description@ == "'Spend tx confirmed'"@,
            t.with_correlation_id == true,
            t.entries@ == spend_settled_entries(),
            t.params@ == spend_settled_params(),
            balanced(t.entries@),
            forall|p: ParamValues| #[trigger] own_accounts(p, spend_settled_wallet_accounts()) ==> settles_spend(t.entries@, p),
    {
        let entries = vec![
            EntryDef {
                entry_type: "'SPEND_SETTLED_LOGICAL_PENDING_DR'",
                account: AccountRef::Param("logical_outgoing_account_id"),
                direction: Direction::Debit,
                layer: Layer::Pending,
                units: Units::MinusTwo("total_utxo_in", "change", "fees"),
            },
            EntryDef {
                entry_type: "'SPEND_SETTLED_LOGICAL_PENDING_CR'",
                account: AccountRef::Fixed(EFFECTIVE_OUTGOING_ID),
                direction: Direction::Credit,
                layer: Layer::Pending,
                units: Units::MinusTwo("total_utxo_in", "change", "fees"),
            },
            EntryDef {
                entry_type: "'SPEND_SETTLED_LOGICAL_SETTLED_DR'",
                account: AccountRef::Fixed(EFFECTIVE_OUTGOING_ID),
                direction: Direction::Debit,
                layer: Layer::Settled,
                units: Units::MinusTwo("total_utxo_in", "change", "fees"),
            },
            EntryDef {
                entry_type: "'SPEND_SETTLED_LOGICAL_SETTLED_CR'",
                account: AccountRef::Param("logical_outgoing_account_id"),
                direction: Direction::Credit,
                layer: Layer::Settled,
                units: Units::MinusTwo("total_utxo_in", "change", "fees"),
            },
            EntryDef {
                entry_type: "'SPEND_SETTLED_FEE_PENDING_DR'",
                account: AccountRef::Fixed(ONCHAIN_FEE_ID),
                direction: Direction::Debit,
                layer: Layer::Pending,
                units: Units::Param("fees"),
            },
            EntryDef {
                entry_type: "'SPEND_SETTLED_FEE_PENDING_CR'",
                account: AccountRef::Param("onchain_fee_account_id"),
                direction: Direction::Credit,
                layer: Layer::Pending,
                units: Units::Param("fees"),
            },
            EntryDef {
                entry_type: "'SPEND_SETTLED_FEE_SETTLED_DR'",
                account: AccountRef::Param("onchain_fee_account_id"),
                direction: Direction::Debit,
                layer: Layer::Settled,
                units: Units::Param("fees"),
            },
            EntryDef {
                entry_type: "'SPEND_SETTLED_FEE_SETTLED_CR'",
                account: AccountRef::Fixed(ONCHAIN_FEE_ID),
                direction: Direction::Credit,
                layer: Layer::Settled,
                units: Units::Param("fees"),
            },
            EntryDef {
                entry_type: "'SPEND_SETTLED_UTXO_PENDING_DR'",
                account: AccountRef::Param("onchain_outgoing_account_id"),
                direction: Direction::Debit,
                layer: Layer::Pending,
                units: Units::Minus("total_utxo_in", "fees"),
            },
            EntryDef {
                entry_type: "'SPEND_SETTLED_UTXO_PENDING_CR'",
                account: AccountRef::Fixed(ONCHAIN_UTXO_OUTGOING_ID),
                direction: Direction::Credit,
                layer: Layer::Pending,
                units: Units::Minus("total_utxo_in", "fees"),
            },
            EntryDef {
                entry_type: "'SPEND_SETTLED_UTXO_SETTLED_DR'",
                account: AccountRef::Fixed(ONCHAIN_UTXO_OUTGOING_ID),
                direction: Direction::Debit,
                layer: Layer::Settled,
                units: Units::Minus("total_utxo_in", "fees"),
            },
            EntryDef {
                entry_type: "'SPEND_SETTLED_UTXO_SETTLED_CR'",
                account: AccountRef::Param("onchain_outgoing_account_id"),
                direction: Direction::Credit,
                layer: Layer::Settled,
                units: Units::Minus("total_utxo_in", "fees"),
            },
            EntryDef {
                entry_type: "'SPEND_SETTLED_UTXO_PENDING_DR'",
                account: AccountRef::Param("onchain_income_account_id"),
                direction: Direction::Debit,
                layer: Layer::Pending,
                units: Units::Param("change"),
            },
            EntryDef {
                entry_type: "'SPEND_SETTLED_UTXO_PENDING_CR'",
                account: AccountRef::Fixed(ONCHAIN_UTXO_INCOMING_ID),
                direction: Direction::Credit,
                layer: Layer::Pending,
                units: Units::Param("change"),
            },
            EntryDef {
                entry_type: "'SPEND_SETTLED_UTXO_SETTLED_DR'",
                account: AccountRef::Fixed(ONCHAIN_UTXO_AT_REST_ID),
                direction: Direction::Debit,
                layer: Layer::Settled,
                units: Units::Param("change"),
            },
            EntryDef {
                entry_type: "'SPEND_SETTLED_UTXO_SETTLED_CR'",
                account: AccountRef::Param("onchain_at_rest_account_id"),
                direction: Direction::Credit,
                layer: Layer::Settled,
                units: Units::Param("change"),
            },
            EntryDef {
                entry_type: "'SPEND_SETTLED_UTXO_SETTLED_DR'",
                account: AccountRef::Param("onchain_at_rest_account_id"),
                direction: Direction::Debit,
                layer: Layer::Settled,
                units: Units::IfElseZero("change_spent", "change"),
            },
            EntryDef {
                entry_type: "'SPEND_SETTLED_UTXO_SETTLED_CR'",
                account: AccountRef::Fixed(ONCHAIN_UTXO_AT_REST_ID),
                direction: Direction::Credit,
                layer: Layer::Settled,
                units: Units::IfElseZero("change_spent", "change"),
            },
        ];
        assert(entries@ =~= spend_settled_entries());
        proof {
            assert forall|p: ParamValues| #[trigger] own_accounts(p, spend_settled_wallet_accounts()) implies settles_spend(entries@, p) by {
                lemma_spend_settled_settles_spend(p);
            }
        }
        let params = SpendSettledParams::defs();
        proof {
            lemma_paired_balanced(entries@);
        }
        TxTemplateDef {
            id: SPEND_SETTLED_ID,
            code: SPEND_SETTLED_CODE,
            description: "'Spend tx confirmed'",
            with_correlation_id: true,
            entries,
            params,
        }
    }
}


/// What a settled spend records.
#[derive(Clone, Debug)]
pub struct SpendSettledMeta {
    pub batch_info: Option<BatchWalletInfo>,
    pub tx_summary: WalletTransactionSummary,
    pub confirmation_time: BlockTime,
}

#[derive(Clone, Debug)]
pub struct SpendSettledParams {
    pub journal_id: LedgerJournalId,
    pub ledger_account_ids: WalletLedgerAccountIds,
    pub spend_detected_tx_id: LedgerTransactionId,
    pub change_spent: bool,
    pub meta: SpendSettledMeta,
}

impl SpendSettledParams {
    /// The values of the posting, correlated with the spend's detection and
    /// effective on the day of its confirmation.
    pub fn values(&self) -> (v: TxParamValues)
        ensures
            v.ids@ == seq![
                ("journal_id", self.journal_id),
                ("logical_outgoing_account_id", self.ledger_account_ids.effective_outgoing_id),
                ("onchain_fee_account_id", self.ledger_account_ids.fee_id),
                ("onchain_at_rest_account_id", self.ledger_account_ids.onchain_at_rest_id),
                ("onchain_income_account_id", self.ledger_account_ids.onchain_incoming_id),
                ("onchain_outgoing_account_id", self.ledger_account_ids.onchain_outgoing_id),
                ("correlation_id", self.spend_detected_tx_id),
            ],
            v.amounts@ == seq![
                ("fees", self.meta.tx_summary.fee_sats as i128),
                ("total_utxo_in", self.meta.tx_summary.total_utxo_in_sats as i128),
                ("change", change_total(self.meta.tx_summary.change_utxos@) as i128),
            ],
            v.flags@ == seq![("change_spent", self.change_spent)],
            v.effective == EffectiveDate::Day(day_of(self.meta.confirmation_time.timestamp)),
    {
        let ids = &self.ledger_account_ids;
        let change = sum_change(&self.meta.tx_summary.change_utxos);
        let v = TxParamValues {
            ids: vec![
                ("journal_id", self.journal_id),
                ("logical_outgoing_account_id", ids.effective_outgoing_id),
                ("onchain_fee_account_id", ids.fee_id),
                ("onchain_at_rest_account_id", ids.onchain_at_rest_id),
                ("onchain_income_account_id", ids.onchain_incoming_id),
                ("onchain_outgoing_account_id", ids.onchain_outgoing_id),
                ("correlation_id", self.spend_detected_tx_id),
            ],
            amounts: vec![
                ("fees", self.meta.tx_summary.fee_sats as i128),
                ("total_utxo_in", self.meta.tx_summary.total_utxo_in_sats as i128),
                ("change", change),
            ],
            flags: vec![("change_spent", self.change_spent)],
            effective: effective_date(Some(self.meta.confirmation_time.timestamp)),
        };
        assert(v.ids@ =~= seq![
            ("journal_id", self.journal_id),
            ("logical_outgoing_account_id", self.ledger_account_ids.effective_outgoing_id),
            ("onchain_fee_account_id", self.ledger_account_ids.fee_id),
            ("onchain_at_rest_account_id", self.ledger_account_ids.onchain_at_rest_id),
            ("onchain_income_account_id", self.ledger_account_ids.onchain_incoming_id),
            ("onchain_outgoing_account_id", self.ledger_account_ids.onchain_outgoing_id),
            ("correlation_id", self.spend_detected_tx_id),
        ]);
        assert(v.amounts@ =~= seq![
            ("fees", self.meta.tx_summary.fee_sats as i128),
            ("total_utxo_in", self.meta.tx_summary.total_utxo_in_sats as i128),
            ("change", change_total(self.meta.tx_summary.change_utxos@) as i128),
        ]);
        assert(v.flags@ =~= seq![("change_spent", self.change_spent)]);
        v
    }
}

} // verus!
