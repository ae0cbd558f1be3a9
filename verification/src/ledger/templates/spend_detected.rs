//! A transaction spending a wallet's UTXOs appears in the mempool.
use vstd::prelude::*;

use crate::ledger::constants::{EFFECTIVE_AT_REST_ID, EFFECTIVE_OUTGOING_ID, ONCHAIN_FEE_ID, ONCHAIN_UTXO_AT_REST_ID, ONCHAIN_UTXO_INCOMING_ID, ONCHAIN_UTXO_OUTGOING_ID, SPEND_DETECTED_CODE, SPEND_DETECTED_ID};
use crate::ledger::template::{
    account_net, is_omnibus, own_accounts, ParamValues,
    balanced, lemma_paired_balanced, AccountRef, Direction, EntryDef, Layer, ParamDef, ParamType,
    TxTemplateDef, Units, day_of, effective_date, EffectiveDate, TxParamValues,
};
use crate::ledger::templates::shared_meta::{change_total, fees_total, sum_change, sum_fees, EncumberedSpendingFees, WalletTransactionSummary};
use crate::ledger::wallet_accounts::WalletLedgerAccountIds;
use crate::primitives::{BlockTime, LedgerJournalId, Satoshis};
use crate::ledger::templates::utxo_detected::confirmation_timestamp;
use crate::ledger::templates::shared_meta::{lemma_change_total_bound, lemma_fees_total_bound};

verus! {

pub open spec fn spend_detected_entries() -> Seq<EntryDef> {
    seq![
        EntryDef {
            entry_type: "'SPEND_DETECTED_LOGICAL_PENDING_CR'",
            account: AccountRef::Param("logical_outgoing_account_id"),
            direction: Direction::Credit,
            layer: Layer::Pending,
            units: Units::MinusTwo("total_utxo_in", "change", "fees"),
        },
        EntryDef {
            entry_type: "'SPEND_DETECTED_LOGICAL_PENDING_DR'",
            account: AccountRef::Fixed(EFFECTIVE_OUTGOING_ID),
            direction: Direction::Debit,
            layer: Layer::Pending,
            units: Units::MinusTwo("total_utxo_in", "change", "fees"),
        },
        EntryDef {
            entry_type: "'SPEND_DETECTED_LOGICAL_SETTLED_DR'",
            account: AccountRef::Param("logical_at_rest_account_id"),
            direction: Direction::Debit,
            layer: Layer::Settled,
            units: Units::Param("logical_settled_out"),
        },
        EntryDef {
            entry_type: "'SPEND_DETECTED_LOGICAL_SETTLED_CR'",
            account: AccountRef::Fixed(EFFECTIVE_AT_REST_ID),
            direction: Direction::Credit,
            layer: Layer::Settled,
            units: Units::Param("logical_settled_out"),
        },
        EntryDef {
            entry_type: "'SPEND_DETECTED_FEE_PENDING_DR'",
            account: AccountRef::Param("onchain_fee_account_id"),
            direction: Direction::Debit,
            layer: Layer::Pending,
            units: Units::Param("fees"),
        },
        EntryDef {
            entry_type: "'SPEND_DETECTED_FEE_PENDING_CR'",
            account: AccountRef::Fixed(ONCHAIN_FEE_ID),
            direction: Direction::Credit,
            layer: Layer::Pending,
            units: Units::Param("fees"),
        },
        EntryDef {
            entry_type: "'SPEND_DETECTED_FEE_ENCUMBERED_DR'",
            account: AccountRef::FixedIf("encumbered_fee_credit", ONCHAIN_FEE_ID, "onchain_fee_account_id"),
            direction: Direction::Debit,
            layer: Layer::Encumbered,
            units: Units::Param("encumbered_fee_diff"),
        },
        EntryDef {
            entry_type: "'SPEND_DETECTED_FEE_ENCUMBERED_CR'",
            account: AccountRef::ParamIf("encumbered_fee_credit", "onchain_fee_account_id", ONCHAIN_FEE_ID),
            direction: Direction::Credit,
            layer: Layer::Encumbered,
            units: Units::Param("encumbered_fee_diff"),
        },
        EntryDef {
            entry_type: "'SPEND_DETECTED_UTXO_PENDING_DR'",
            account: AccountRef::Fixed(ONCHAIN_UTXO_OUTGOING_ID),
            direction: Direction::Debit,
            layer: Layer::Pending,
            units: Units::Minus("total_utxo_in", "fees"),
        },
        EntryDef {
            entry_type: "'SPEND_DETECTED_UTXO_PENDING_CR'",
            account: AccountRef::Param("onchain_outgoing_account_id"),
            direction: Direction::Credit,
            layer: Layer::Pending,
            units: Units::Minus("total_utxo_in", "fees"),
        },
        EntryDef {
            entry_type: "'SPEND_DETECTED_UTXO_SETTLED_DR'",
            account: AccountRef::Param("onchain_at_rest_account_id"),
            direction: Direction::Debit,
            layer: Layer::Settled,
            units: Units::Param("total_utxo_settled_in"),
        },
        EntryDef {
            entry_type: "'SPEND_DETECTED_UTXO_SETTLED_CR'",
            account: AccountRef::Fixed(ONCHAIN_UTXO_AT_REST_ID),
            direction: Direction::Credit,
            layer: Layer::Settled,
            units: Units::Param("total_utxo_settled_in"),
        },
        EntryDef {
            entry_type: "'SPEND_DETECTED_UTXO_PENDING_DR'",
            account: AccountRef::Fixed(ONCHAIN_UTXO_INCOMING_ID),
            direction: Direction::Debit,
            layer: Layer::Pending,
            units: Units::Param("change"),
        },
        EntryDef {
            entry_type: "'SPEND_DETECTED_UTXO_PENDING_CR'",
            account: AccountRef::Param("onchain_income_account_id"),
            direction: Direction::Credit,
            layer: Layer::Pending,
            units: Units::Param("change"),
        },
    ]
}

/// The accounts of the wallet that a posting from this template names.
pub open spec fn spend_detected_wallet_accounts() -> Set<Seq<char>> {
    set!["logical_outgoing_account_id"@, "logical_at_rest_account_id"@, "onchain_fee_account_id"@, "onchain_at_rest_account_id"@, "onchain_income_account_id"@, "onchain_outgoing_account_id"@]
}

/// What detecting a spend does to the wallet's balances (debits less
/// credits, so a credit-normal account that receives shows a negative net):
/// what the wallet's users send out, the UTXOs spent less the change less
/// the fees, becomes pending on its effective outgoing account; the fees
/// become pending on its fee account; what was spent less the fees becomes
/// pending onchain outgoing and the change pending onchain incoming; what
/// leaves at rest now leaves the effective and onchain at-rest accounts; the
/// encumbered fees move by their difference, towards the fee account when
/// `encumbered_fee_credit` holds and away from it otherwise.
pub open spec fn records_detected_spend(es: Seq<EntryDef>, p: ParamValues) -> bool {
    &&& account_net(es, (p.id)("logical_outgoing_account_id"@), Layer::Pending, p) == -((p.amount)("total_utxo_in"@) - (p.amount)("change"@) - (p.amount)("fees"@))
    &&& account_net(es, EFFECTIVE_OUTGOING_ID, Layer::Pending, p) == ((p.amount)("total_utxo_in"@) - (p.amount)("change"@) - (p.amount)("fees"@))
    &&& account_net(es, (p.id)("logical_outgoing_account_id"@), Layer::Settled, p) == 0
    &&& account_net(es, (p.id)("logical_at_rest_account_id"@), Layer::Settled, p) == (p.amount)("logical_settled_out"@)
    &&& account_net(es, EFFECTIVE_AT_REST_ID, Layer::Settled, p) == -(p.amount)("logical_settled_out"@)
    &&& account_net(es, (p.id)("onchain_fee_account_id"@), Layer::Pending, p) == (p.amount)("fees"@)
    &&& account_net(es, (p.id)("onchain_fee_account_id"@), Layer::Encumbered, p) == if (p.flag)("encumbered_fee_credit"@) {
        -(p.amount)("encumbered_fee_diff"@)
    } else {
        (p.amount)("encumbered_fee_diff"@)
    }
    &&& account_net(es, (p.id)("onchain_outgoing_account_id"@), Layer::Pending, p) == -((p.amount)("total_utxo_in"@) - (p.amount)("fees"@))
    &&& account_net(es, ONCHAIN_UTXO_OUTGOING_ID, Layer::Pending, p) == (p.amount)("total_utxo_in"@) - (p.amount)("fees"@)
    &&& account_net(es, (p.id)("onchain_at_rest_account_id"@), Layer::Settled, p) == (p.amount)("total_utxo_settled_in"@)
    &&& account_net(es, ONCHAIN_UTXO_AT_REST_ID, Layer::Settled, p) == -(p.amount)("total_utxo_settled_in"@)
    &&& account_net(es, (p.id)("onchain_income_account_id"@), Layer::Pending, p) == -(p.amount)("change"@)
    &&& account_net(es, ONCHAIN_UTXO_INCOMING_ID, Layer::Pending, p) == (p.amount)("change"@)
}

/// Detecting a spend records what the wallet's users send out, the fees and
/// the change on the wallet's accounts as described by
/// `records_detected_spend`, whatever the posting's amounts and flag, as long
/// as the wallet's accounts are its own.
pub proof fn lemma_spend_detected_records_spend(p: ParamValues)
    requires
        own_accounts(p, spend_detected_wallet_accounts()),
    ensures
        records_detected_spend(spend_detected_entries(), p),
{
    reveal_strlit("logical_outgoing_account_id");
    reveal_strlit("logical_at_rest_account_id");
    reveal_strlit("onchain_fee_account_id");
    reveal_strlit("onchain_at_rest_account_id");
    reveal_strlit("onchain_income_account_id");
    reveal_strlit("onchain_outgoing_account_id");
    assert("logical_outgoing_account_id"@ != "logical_at_rest_account_id"@) by { assert("logical_outgoing_account_id"@[8] != "logical_at_rest_account_id"@[8]); }
    assert("logical_outgoing_account_id"@ != "onchain_fee_account_id"@) by { assert("logical_outgoing_account_id"@[0] != "onchain_fee_account_id"@[0]); }
    assert("logical_outgoing_account_id"@ != "onchain_at_rest_account_id"@) by { assert("logical_outgoing_account_id"@[0] != "onchain_at_rest_account_id"@[0]); }
    assert("logical_outgoing_account_id"@ != "onchain_income_account_id"@) by { assert("logical_outgoing_account_id"@[0] != "onchain_income_account_id"@[0]); }
    assert("logical_outgoing_account_id"@ != "onchain_outgoing_account_id"@) by { assert("logical_outgoing_account_id"@[0] != "onchain_outgoing_account_id"@[0]); }
    assert("logical_at_rest_account_id"@ != "onchain_fee_account_id"@) by { assert("logical_at_rest_account_id"@[0] != "onchain_fee_account_id"@[0]); }
    assert("logical_at_rest_account_id"@ != "onchain_at_rest_account_id"@) by { assert("logical_at_rest_account_id"@[0] != "onchain_at_rest_account_id"@[0]); }
    assert("logical_at_rest_account_id"@ != "onchain_income_account_id"@) by { assert("logical_at_rest_account_id"@[0] != "onchain_income_account_id"@[0]); }
    assert("logical_at_rest_account_id"@ != "onchain_outgoing_account_id"@) by { assert("logical_at_rest_account_id"@[0] != "onchain_outgoing_account_id"@[0]); }
    assert("onchain_fee_account_id"@ != "onchain_at_rest_account_id"@) by { assert("onchain_fee_account_id"@[8] != "onchain_at_rest_account_id"@[8]); }
    assert("onchain_fee_account_id"@ != "onchain_income_account_id"@) by { assert("onchain_fee_account_id"@[8] != "onchain_income_account_id"@[8]); }
    assert("onchain_fee_account_id"@ != "onchain_outgoing_account_id"@) by { assert("onchain_fee_account_id"@[8] != "onchain_outgoing_account_id"@[8]); }
    assert("onchain_at_rest_account_id"@ != "onchain_income_account_id"@) by { assert("onchain_at_rest_account_id"@[8] != "onchain_income_account_id"@[8]); }
    assert("onchain_at_rest_account_id"@ != "onchain_outgoing_account_id"@) by { assert("onchain_at_rest_account_id"@[8] != "onchain_outgoing_account_id"@[8]); }
    assert("onchain_income_account_id"@ != "onchain_outgoing_account_id"@) by { assert("onchain_income_account_id"@[8] != "onchain_outgoing_account_id"@[8]); }
    assert(!is_omnibus((p.id)("logical_outgoing_account_id"@)));
    assert(!is_omnibus((p.id)("logical_at_rest_account_id"@)));
    assert(!is_omnibus((p.id)("onchain_fee_account_id"@)));
    assert(!is_omnibus((p.id)("onchain_at_rest_account_id"@)));
    assert(!is_omnibus((p.id)("onchain_income_account_id"@)));
    assert(!is_omnibus((p.id)("onchain_outgoing_account_id"@)));
    assert((p.id)("logical_outgoing_account_id"@) != (p.id)("logical_at_rest_account_id"@));
    assert((p.id)("logical_outgoing_account_id"@) != (p.id)("onchain_fee_account_id"@));
    assert((p.id)("logical_outgoing_account_id"@) != (p.id)("onchain_at_rest_account_id"@));
    assert((p.id)("logical_outgoing_account_id"@) != (p.id)("onchain_income_account_id"@));
    assert((p.id)("logical_outgoing_account_id"@) != (p.id)("onchain_outgoing_account_id"@));
    assert((p.id)("logical_at_rest_account_id"@) != (p.id)("onchain_fee_account_id"@));
    assert((p.id)("logical_at_rest_account_id"@) != (p.id)("onchain_at_rest_account_id"@));
    assert((p.id)("logical_at_rest_account_id"@) != (p.id)("onchain_income_account_id"@));
    assert((p.id)("logical_at_rest_account_id"@) != (p.id)("onchain_outgoing_account_id"@));
    assert((p.id)("onchain_fee_account_id"@) != (p.id)("onchain_at_rest_account_id"@));
    assert((p.id)("onchain_fee_account_id"@) != (p.id)("onchain_income_account_id"@));
    assert((p.id)("onchain_fee_account_id"@) != (p.id)("onchain_outgoing_account_id"@));
    assert((p.id)("onchain_at_rest_account_id"@) != (p.id)("onchain_income_account_id"@));
    assert((p.id)("onchain_at_rest_account_id"@) != (p.id)("onchain_outgoing_account_id"@));
    assert((p.id)("onchain_income_account_id"@) != (p.id)("onchain_outgoing_account_id"@));
    reveal_with_fuel(account_net, 15);
}

pub open spec fn spend_detected_params() -> Seq<ParamDef> {
    seq![
        ParamDef { name: "journal_id", param_type: ParamType::Uuid, default_expr: None },
        ParamDef { name: "logical_outgoing_account_id", param_type: ParamType::Uuid, default_expr: None },
        ParamDef { name: "logical_at_rest_account_id", param_type: ParamType::Uuid, default_expr: None },
        ParamDef { name: "onchain_fee_account_id", param_type: ParamType::Uuid, default_expr: None },
        ParamDef { name: "onchain_at_rest_account_id", param_type: ParamType::Uuid, default_expr: None },
        ParamDef { name: "onchain_income_account_id", param_type: ParamType::Uuid, default_expr: None },
        ParamDef { name: "onchain_outgoing_account_id", param_type: ParamType::Uuid, default_expr: None },
        ParamDef { name: "encumbered_fee_credit", param_type: ParamType::Boolean, default_expr: Some("true") },
        ParamDef { name: "encumbered_fee_diff", param_type: ParamType::Decimal, default_expr: None },
        ParamDef { name: "fees", param_type: ParamType::Decimal, default_expr: None },
        ParamDef { name: "total_utxo_in", param_type: ParamType::Decimal, default_expr: None },
        ParamDef { name: "total_utxo_settled_in", param_type: ParamType::Decimal, default_expr: None },
        ParamDef { name: "logical_settled_out", param_type: ParamType::Decimal, default_expr: None },
        ParamDef { name: "change", param_type: ParamType::Decimal, default_expr: None },
        ParamDef { name: "meta", param_type: ParamType::Json, default_expr: None },
        ParamDef { name: "effective", param_type: ParamType::Date, default_expr: None },
    ]
}

/// A transaction spending a wallet's UTXOs appears in the mempool.
pub struct SpendDetected {}

impl SpendDetectedParams {
    /// The parameters the template takes.
    pub fn defs() -> (defs: Vec<ParamDef>)
        ensures
            defs@ == spend_detected_params(),
    {
        let defs = vec![
            ParamDef { name: "journal_id", param_type: ParamType::Uuid, default_expr: None },
            ParamDef { name: "logical_outgoing_account_id", param_type: ParamType::Uuid, default_expr: None },
            ParamDef { name: "logical_at_rest_account_id", param_type: ParamType::Uuid, default_expr: None },
            ParamDef { name: "onchain_fee_account_id", param_type: ParamType::Uuid, default_expr: None },
            ParamDef { name: "onchain_at_rest_account_id", param_type: ParamType::Uuid, default_expr: None },
            ParamDef { name: "onchain_income_account_id", param_type: ParamType::Uuid, default_expr: None },
            ParamDef { name: "onchain_outgoing_account_id", param_type: ParamType::Uuid, default_expr: None },
            ParamDef { name: "encumbered_fee_credit", param_type: ParamType::Boolean, default_expr: Some("true") },
            ParamDef { name: "encumbered_fee_diff", param_type: ParamType::Decimal, default_expr: None },
            ParamDef { name: "fees", param_type: ParamType::Decimal, default_expr: None },
            ParamDef { name: "total_utxo_in", param_type: ParamType::Decimal, default_expr: None },
            ParamDef { name: "total_utxo_settled_in", param_type: ParamType::Decimal, default_expr: None },
            ParamDef { name: "logical_settled_out", param_type: ParamType::Decimal, default_expr: None },
            ParamDef { name: "change", param_type: ParamType::Decimal, default_expr: None },
            ParamDef { name: "meta", param_type: ParamType::Json, default_expr: None },
            ParamDef { name: "effective", param_type: ParamType::Date, default_expr: None },
        ];
        assert(defs@ =~= spend_detected_params());
        defs
    }
}

impl SpendDetected {
    /// The template; its entries balance on every layer, whatever its parameters.
    pub fn template() -> (t: TxTemplateDef)
        ensures
            t.id == SPEND_DETECTED_ID,
            t.code == SPEND_DETECTED_CODE,
            t.description@ == "'External Spend'"@,
            t.with_correlation_id == false,
            t.entries@ == spend_detected_entries(),
            t.params@ == spend_detected_params(),
            balanced(t.entries@),
            forall|p: ParamValues| #[trigger] own_accounts(p, spend_detected_wallet_accounts()) ==> records_detected_spend(t.entries@, p),
    {
        let entries = vec![
            EntryDef {
                entry_type: "'SPEND_DETECTED_LOGICAL_PENDING_CR'",
                account: AccountRef::Param("logical_outgoing_account_id"),
                direction: Direction::Credit,
                layer: Layer::Pending,
                units: Units::MinusTwo("total_utxo_in", "change", "fees"),
            },
            EntryDef {
                entry_type: "'SPEND_DETECTED_LOGICAL_PENDING_DR'",
                account: AccountRef::Fixed(EFFECTIVE_OUTGOING_ID),
                direction: Direction::Debit,
                layer: Layer::Pending,
                units: Units::MinusTwo("total_utxo_in", "change", "fees"),
            },
            EntryDef {
                entry_type: "'SPEND_DETECTED_LOGICAL_SETTLED_DR'",
                account: AccountRef::Param("logical_at_rest_account_id"),
                direction: Direction::Debit,
                layer: Layer::Settled,
                units: Units::Param("logical_settled_out"),
            },
            EntryDef {
                entry_type: "'SPEND_DETECTED_LOGICAL_SETTLED_CR'",
                account: AccountRef::Fixed(EFFECTIVE_AT_REST_ID),
                direction: Direction::Credit,
                layer: Layer::Settled,
                units: Units::Param("logical_settled_out"),
            },
            EntryDef {
                entry_type: "'SPEND_DETECTED_FEE_PENDING_DR'",
                account: AccountRef::Param("onchain_fee_account_id"),
                direction: Direction::Debit,
                layer: Layer::Pending,
                units: Units::Param("fees"),
            },
            EntryDef {
                entry_type: "'SPEND_DETECTED_FEE_PENDING_CR'",
                account: AccountRef::Fixed(ONCHAIN_FEE_ID),
                direction: Direction::Credit,
                layer: Layer::Pending,
                units: Units::Param("fees"),
            },
            EntryDef {
                entry_type: "'SPEND_DETECTED_FEE_ENCUMBERED_DR'",
                account: AccountRef::FixedIf("encumbered_fee_credit", ONCHAIN_FEE_ID, "onchain_fee_account_id"),
                direction: Direction::Debit,
                layer: Layer::Encumbered,
                units: Units::Param("encumbered_fee_diff"),
            },
            EntryDef {
                entry_type: "'SPEND_DETECTED_FEE_ENCUMBERED_CR'",
                account: AccountRef::ParamIf("encumbered_fee_credit", "onchain_fee_account_id", ONCHAIN_FEE_ID),
                direction: Direction::Credit,
                layer: Layer::Encumbered,
                units: Units::Param("encumbered_fee_diff"),
            },
            EntryDef {
                entry_type: "'SPEND_DETECTED_UTXO_PENDING_DR'",
                account: AccountRef::Fixed(ONCHAIN_UTXO_OUTGOING_ID),
                direction: Direction::Debit,
                layer: Layer::Pending,
                units: Units::Minus("total_utxo_in", "fees"),
            },
            EntryDef {
                entry_type: "'SPEND_DETECTED_UTXO_PENDING_CR'",
                account: AccountRef::Param("onchain_outgoing_account_id"),
                direction: Direction::Credit,
                layer: Layer::Pending,
                units: Units::Minus("total_utxo_in", "fees"),
            },
            EntryDef {
                entry_type: "'SPEND_DETECTED_UTXO_SETTLED_DR'",
                account: AccountRef::Param("onchain_at_rest_account_id"),
                direction: Direction::Debit,
                layer: Layer::Settled,
                units: Units::Param("total_utxo_settled_in"),
            },
            EntryDef {
                entry_type: "'SPEND_DETECTED_UTXO_SETTLED_CR'",
                account: AccountRef::Fixed(ONCHAIN_UTXO_AT_REST_ID),
                direction: Direction::Credit,
                layer: Layer::Settled,
                units: Units::Param("total_utxo_settled_in"),
            },
            EntryDef {
                entry_type: "'SPEND_DETECTED_UTXO_PENDING_DR'",
                account: AccountRef::Fixed(ONCHAIN_UTXO_INCOMING_ID),
                direction: Direction::Debit,
                layer: Layer::Pending,
                units: Units::Param("change"),
            },
            EntryDef {
                entry_type: "'SPEND_DETECTED_UTXO_PENDING_CR'",
                account: AccountRef::Param("onchain_income_account_id"),
                direction: Direction::Credit,
                layer: Layer::Pending,
                units: Units::Param("change"),
            },
        ];
        assert(entries@ =~= spend_detected_entries());
        proof {
            assert forall|p: ParamValues| #[trigger] own_accounts(p, spend_detected_wallet_accounts()) implies records_detected_spend(entries@, p) by {
                lemma_spend_detected_records_spend(p);
            }
        }
        let params = SpendDetectedParams::defs();
        proof {
            lemma_paired_balanced(entries@);
        }
        TxTemplateDef {
            id: SPEND_DETECTED_ID,
            code: SPEND_DETECTED_CODE,
            description: "'External Spend'",
            with_correlation_id: false,
            entries,
            params,
        }
    }
}


/// What a detected spend records.
#[derive(Clone, Debug)]
pub struct SpendDetectedMeta {
    pub encumbered_spending_fees: EncumberedSpendingFees,
    pub tx_summary: WalletTransactionSummary,
    pub withdraw_from_effective_when_settled: Vec<(crate::primitives::OutPoint, Satoshis)>,
    pub confirmation_time: Option<BlockTime>,
}

#[derive(Clone, Debug)]
pub struct SpendDetectedParams {
    pub journal_id: LedgerJournalId,
    pub ledger_account_ids: WalletLedgerAccountIds,
    pub reserved_fees: Satoshis,
    pub meta: SpendDetectedMeta,
}

/// The fees reserved for the spent UTXOs less those now encumbered for the
/// change.
pub open spec fn encumbered_fee_diff(p: SpendDetectedParams) -> int {
    p.reserved_fees - fees_total(p.meta.encumbered_spending_fees@)
}

pub open spec fn abs(x: int) -> int {
    if x < 0 { -x } else { x }
}

impl SpendDetectedParams {
    /// The values of the posting. The encumbered fees move by the difference
    /// between the fees reserved for the spent UTXOs and those encumbered for
    /// the change: credited to the fee account when it is not negative, debited
    /// otherwise (the flag `encumbered_fee_credit` is then set to false). What
    /// leaves the effective at-rest account now is what went in, less the
    /// change, less what is withdrawn only once the spent UTXOs settle.
    pub fn values(&self) -> (v: TxParamValues)
        requires
            i128::MIN < encumbered_fee_diff(*self),
            i128::MIN <= self.meta.tx_summary.total_utxo_in_sats
                - change_total(self.meta.tx_summary.change_utxos@)
                - fees_total(self.meta.withdraw_from_effective_when_settled@) <= i128::MAX,
        ensures
            v.ids@ == seq![
                ("journal_id", self.journal_id),
                ("logical_outgoing_account_id", self.ledger_account_ids.effective_outgoing_id),
                ("logical_at_rest_account_id", self.ledger_account_ids.effective_at_rest_id),
                ("onchain_fee_account_id", self.ledger_account_ids.fee_id),
                ("onchain_at_rest_account_id", self.ledger_account_ids.onchain_at_rest_id),
                ("onchain_income_account_id", self.ledger_account_ids.onchain_incoming_id),
                ("onchain_outgoing_account_id", self.ledger_account_ids.onchain_outgoing_id),
            ],
            v.flags@ == if encumbered_fee_diff(*self) < 0 {
                seq![("encumbered_fee_credit", false)]
            } else {
                Seq::<(&'static str, bool)>::empty()
            },
            v.amounts@ == seq![
                ("encumbered_fee_diff", abs(encumbered_fee_diff(*self)) as i128),
                ("fees", self.meta.tx_summary.fee_sats as i128),
                ("total_utxo_in", self.meta.tx_summary.total_utxo_in_sats as i128),
                ("total_utxo_settled_in", self.meta.tx_summary.total_utxo_settled_in_sats as i128),
                ("logical_settled_out", (self.meta.tx_summary.total_utxo_in_sats
                    - change_total(self.meta.tx_summary.change_utxos@)
                    - fees_total(self.meta.withdraw_from_effective_when_settled@)) as i128),
                ("change", change_total(self.meta.tx_summary.change_utxos@) as i128),
            ],
            v.effective == match confirmation_timestamp(self.meta.confirmation_time) {
                Some(t) => EffectiveDate::Day(day_of(t)),
                None => EffectiveDate::Today,
            },
    {
        let ids = &self.ledger_account_ids;
        let summary = &self.meta.tx_summary;
        let encumbered = sum_fees(&self.meta.encumbered_spending_fees);
        let deferred_effective_settled = sum_fees(&self.meta.withdraw_from_effective_when_settled);
        let change = sum_change(&summary.change_utxos);
        proof {
            lemma_fees_total_bound(self.meta.encumbered_spending_fees@);
            lemma_fees_total_bound(self.meta.withdraw_from_effective_when_settled@);
            lemma_change_total_bound(summary.change_utxos@);
        }
        let diff: i128 = self.reserved_fees as i128 - encumbered;
        let mut flags = Vec::new();
        if diff < 0 {
            flags.push(("encumbered_fee_credit", false));
        }
        let diff_abs: i128 = if diff < 0 { -diff } else { diff };
        let timestamp = match self.meta.confirmation_time {
            Some(t) => Some(t.timestamp),
            None => None,
        };
        let settled_out: i128 = summary.total_utxo_in_sats as i128 - change - deferred_effective_settled;
        let v = TxParamValues {
            ids: vec![
                ("journal_id", self.journal_id),
                ("logical_outgoing_account_id", ids.effective_outgoing_id),
                ("logical_at_rest_account_id", ids.effective_at_rest_id),
                ("onchain_fee_account_id", ids.fee_id),
                ("onchain_at_rest_account_id", ids.onchain_at_rest_id),
                ("onchain_income_account_id", ids.onchain_incoming_id),
                ("onchain_outgoing_account_id", ids.onchain_outgoing_id),
            ],
            amounts: vec![
                ("encumbered_fee_diff", diff_abs),
                ("fees", summary.fee_sats as i128),
                ("total_utxo_in", summary.total_utxo_in_sats as i128),
                ("total_utxo_settled_in", summary.total_utxo_settled_in_sats as i128),
                ("logical_settled_out", settled_out),
                ("change", change),
            ],
            flags,
            effective: effective_date(timestamp),
        };
        assert(v.ids@ =~= seq![
            ("journal_id", self.journal_id),
            ("logical_outgoing_account_id", self.ledger_account_ids.effective_outgoing_id),
            ("logical_at_rest_account_id", self.ledger_account_ids.effective_at_rest_id),
            ("onchain_fee_account_id", self.ledger_account_ids.fee_id),
            ("onchain_at_rest_account_id", self.ledger_account_ids.onchain_at_rest_id),
            ("onchain_income_account_id", self.ledger_account_ids.onchain_incoming_id),
            ("onchain_outgoing_account_id", self.ledger_account_ids.onchain_outgoing_id),
        ]);
        assert(v.amounts@ =~= seq![
            ("encumbered_fee_diff", abs(encumbered_fee_diff(*self)) as i128),
            ("fees", self.meta.tx_summary.fee_sats as i128),
            ("total_utxo_in", self.meta.tx_summary.total_utxo_in_sats as i128),
            ("total_utxo_settled_in", self.meta.tx_summary.total_utxo_settled_in_sats as i128),
            ("logical_settled_out", (self.meta.tx_summary.total_utxo_in_sats
                - change_total(self.meta.tx_summary.change_utxos@)
                - fees_total(self.meta.withdraw_from_effective_when_settled@)) as i128),
            ("change", change_total(self.meta.tx_summary.change_utxos@) as i128),
        ]);
        assert(v.flags@ =~= if encumbered_fee_diff(*self) < 0 {
            seq![("encumbered_fee_credit", false)]
        } else {
            Seq::<(&'static str, bool)>::empty()
        });
        v
    }
}

} // verus!
