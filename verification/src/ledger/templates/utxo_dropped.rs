//! A detected UTXO left the mempool unconfirmed: every entry of its detection is posted again the other way round.
use vstd::prelude::*;

use crate::ledger::constants::{EFFECTIVE_INCOMING_ID, ONCHAIN_FEE_ID, ONCHAIN_UTXO_INCOMING_ID, UTXO_DROPPED_CODE, UTXO_DROPPED_ID};
use crate::ledger::template::{
    is_omnibus, own_accounts, balanced, lemma_paired_balanced, AccountRef, Direction, EntryDef, Layer, ParamDef, ParamType, TxTemplateDef, Units, account_net, day_of, effective_date, flipped, lemma_reverses_negates, reverses, EffectiveDate, ParamValues, TxParamValues,
};
use crate::ledger::templates::shared_meta::{fees_total, sum_fees, EncumberedSpendingFees};
use crate::ledger::templates::utxo_detected::{confirmation_timestamp, utxo_detected_entries};
use crate::primitives::{AccountId, BlockTime, KeychainId, LedgerAccountId, LedgerJournalId, LedgerTransactionId, OutPoint, Satoshis, WalletId};

verus! {

pub open spec fn utxo_dropped_entries() -> Seq<EntryDef> {
    seq![
        EntryDef {
            entry_type: "'UTXO_DROPPED_LOG_IN_PEN_CR'",
            account: AccountRef::Fixed(EFFECTIVE_INCOMING_ID),
            direction: Direction::Credit,
            layer: Layer::Pending,
            units: Units::Param("amount"),
        },
        EntryDef {
            entry_type: "'UTXO_DROPPED_LOG_IN_PEN_DR'",
            account: AccountRef::Param("effective_incoming_account_id"),
            direction: Direction::Debit,
            layer: Layer::Pending,
            units: Units::Param("amount"),
        },
        EntryDef {
            entry_type: "'UTXO_DROPPED_FR_ENC_CR'",
            account: AccountRef::Param("onchain_fee_account_id"),
            direction: Direction::Credit,
            layer: Layer::Encumbered,
            units: Units::Param("encumbered_spending_fees"),
        },
        EntryDef {
            entry_type: "'UTXO_DROPPED_FR_ENC_DR'",
            account: AccountRef::Fixed(ONCHAIN_FEE_ID),
            direction: Direction::Debit,
            layer: Layer::Encumbered,
            units: Units::Param("encumbered_spending_fees"),
        },
        EntryDef {
            entry_type: "'UTXO_DROPPED_UTX_IN_PEN_CR'",
            account: AccountRef::Fixed(ONCHAIN_UTXO_INCOMING_ID),
            direction: Direction::Credit,
            layer: Layer::Pending,
            units: Units::Param("amount"),
        },
        EntryDef {
            entry_type: "'UTXO_DROPPED_UTX_IN_PEN_DR'",
            account: AccountRef::Param("onchain_incoming_account_id"),
            direction: Direction::Debit,
            layer: Layer::Pending,
            units: Units::Param("amount"),
        },
    ]
}

/// The accounts of the wallet that a posting from this template names.
pub open spec fn utxo_dropped_wallet_accounts() -> Set<Seq<char>> {
    set!["onchain_incoming_account_id"@, "effective_incoming_account_id"@, "onchain_fee_account_id"@]
}

/// What dropping a UTXO does to the wallet's balances (debits less
/// credits, so a credit-normal account that receives shows a negative net):
/// its amount leaves the wallet's pending effective and onchain incoming
/// accounts, the fees encumbered to spend it are released from its fee
/// account, and the omnibus accounts take the other side of each.
pub open spec fn records_dropped_utxo(es: Seq<EntryDef>, p: ParamValues) -> bool {
    &&& account_net(es, (p.id)("effective_incoming_account_id"@), Layer::Pending, p) == (p.amount)("amount"@)
    &&& account_net(es, EFFECTIVE_INCOMING_ID, Layer::Pending, p) == -(p.amount)("amount"@)
    &&& account_net(es, (p.id)("onchain_incoming_account_id"@), Layer::Pending, p) == (p.amount)("amount"@)
    &&& account_net(es, ONCHAIN_UTXO_INCOMING_ID, Layer::Pending, p) == -(p.amount)("amount"@)
    &&& account_net(es, (p.id)("onchain_fee_account_id"@), Layer::Encumbered, p) == -(p.amount)("encumbered_spending_fees"@)
    &&& account_net(es, ONCHAIN_FEE_ID, Layer::Encumbered, p) == (p.amount)("encumbered_spending_fees"@)
    &&& account_net(es, (p.id)("effective_incoming_account_id"@), Layer::Settled, p) == 0
    &&& account_net(es, (p.id)("onchain_incoming_account_id"@), Layer::Settled, p) == 0
}

/// Dropping a UTXO takes its amount out of the wallet's pending incoming
/// and releases the fees encumbered to spend it, as described by
/// `records_dropped_utxo`, whatever the posting's amounts, as long as the
/// wallet's accounts are its own.
pub proof fn lemma_utxo_dropped_releases_incoming(p: ParamValues)
    requires
        own_accounts(p, utxo_dropped_wallet_accounts()),
    ensures
        records_dropped_utxo(utxo_dropped_entries(), p),
{
    reveal_strlit("onchain_incoming_account_id");
    reveal_strlit("effective_incoming_account_id");
    reveal_strlit("onchain_fee_account_id");
    assert("onchain_incoming_account_id"@ != "effective_incoming_account_id"@) by { assert("onchain_incoming_account_id"@[0] != "effective_incoming_account_id"@[0]); }
    assert("onchain_incoming_account_id"@ != "onchain_fee_account_id"@) by { assert("onchain_incoming_account_id"@[8] != "onchain_fee_account_id"@[8]); }
    assert("effective_incoming_account_id"@ != "onchain_fee_account_id"@) by { assert("effective_incoming_account_id"@[0] != "onchain_fee_account_id"@[0]); }
    assert(!is_omnibus((p.id)("onchain_incoming_account_id"@)));
    assert(!is_omnibus((p.id)("effective_incoming_account_id"@)));
    assert(!is_omnibus((p.id)("onchain_fee_account_id"@)));
    assert((p.id)("onchain_incoming_account_id"@) != (p.id)("effective_incoming_account_id"@));
    assert((p.id)("onchain_incoming_account_id"@) != (p.id)("onchain_fee_account_id"@));
    assert((p.id)("effective_incoming_account_id"@) != (p.id)("onchain_fee_account_id"@));
    reveal_with_fuel(account_net, 7);
}

pub open spec fn utxo_dropped_params() -> Seq<ParamDef> {
    seq![
        ParamDef { name: "journal_id", param_type: ParamType::Uuid, default_expr: None },
        ParamDef { name: "onchain_incoming_account_id", param_type: ParamType::Uuid, default_expr: None },
        ParamDef { name: "effective_incoming_account_id", param_type: ParamType::Uuid, default_expr: None },
        ParamDef { name: "onchain_fee_account_id", param_type: ParamType::Uuid, default_expr: None },
        ParamDef { name: "amount", param_type: ParamType::Decimal, default_expr: None },
        ParamDef { name: "encumbered_spending_fees", param_type: ParamType::Decimal, default_expr: None },
        ParamDef { name: "meta", param_type: ParamType::Json, default_expr: None },
        ParamDef { name: "effective", param_type: ParamType::Date, default_expr: None },
    ]
}

/// A detected UTXO left the mempool unconfirmed: every entry of its detection is posted again the other way round.
pub struct UtxoDropped {}

impl UtxoDroppedParams {
    /// The parameters the template takes.
    pub fn defs() -> (defs: Vec<ParamDef>)
        ensures
            defs@ == utxo_dropped_params(),
    {
        let defs = vec![
            ParamDef { name: "journal_id", param_type: ParamType::Uuid, default_expr: None },
            ParamDef { name: "onchain_incoming_account_id", param_type: ParamType::Uuid, default_expr: None },
            ParamDef { name: "effective_incoming_account_id", param_type: ParamType::Uuid, default_expr: None },
            ParamDef { name: "onchain_fee_account_id", param_type: ParamType::Uuid, default_expr: None },
            ParamDef { name: "amount", param_type: ParamType::Decimal, default_expr: None },
            ParamDef { name: "encumbered_spending_fees", param_type: ParamType::Decimal, default_expr: None },
            ParamDef { name: "meta", param_type: ParamType::Json, default_expr: None },
            ParamDef { name: "effective", param_type: ParamType::Date, default_expr: None },
        ];
        assert(defs@ =~= utxo_dropped_params());
        defs
    }
}

impl UtxoDropped {
    /// The template; its entries balance on every layer, whatever its parameters.
    pub fn template() -> (t: TxTemplateDef)
        ensures
            t.id == UTXO_DROPPED_ID,
            t.code == UTXO_DROPPED_CODE,
            t.description@ == "'Onchain tx dropped'"@,
            t.with_correlation_id == false,
            t.entries@ == utxo_dropped_entries(),
            t.params@ == utxo_dropped_params(),
            balanced(t.entries@),
            forall|p: ParamValues| #[trigger] own_accounts(p, utxo_dropped_wallet_accounts()) ==> records_dropped_utxo(t.entries@, p),
    {
        let entries = vec![
            EntryDef {
                entry_type: "'UTXO_DROPPED_LOG_IN_PEN_CR'",
                account: AccountRef::Fixed(EFFECTIVE_INCOMING_ID),
                direction: Direction::Credit,
                layer: Layer::Pending,
                units: Units::Param("amount"),
            },
            EntryDef {
                entry_type: "'UTXO_DROPPED_LOG_IN_PEN_DR'",
                account: AccountRef::Param("effective_incoming_account_id"),
                direction: Direction::Debit,
                layer: Layer::Pending,
                units: Units::Param("amount"),
            },
            EntryDef {
                entry_type: "'UTXO_DROPPED_FR_ENC_CR'",
                account: AccountRef::Param("onchain_fee_account_id"),
                direction: Direction::Credit,
                layer: Layer::Encumbered,
                units: Units::Param("encumbered_spending_fees"),
            },
            EntryDef {
                entry_type: "'UTXO_DROPPED_FR_ENC_DR'",
                account: AccountRef::Fixed(ONCHAIN_FEE_ID),
                direction: Direction::Debit,
                layer: Layer::Encumbered,
                units: Units::Param("encumbered_spending_fees"),
            },
            EntryDef {
                entry_type: "'UTXO_DROPPED_UTX_IN_PEN_CR'",
                account: AccountRef::Fixed(ONCHAIN_UTXO_INCOMING_ID),
                direction: Direction::Credit,
                layer: Layer::Pending,
                units: Units::Param("amount"),
            },
            EntryDef {
                entry_type: "'UTXO_DROPPED_UTX_IN_PEN_DR'",
                account: AccountRef::Param("onchain_incoming_account_id"),
                direction: Direction::Debit,
                layer: Layer::Pending,
                units: Units::Param("amount"),
            },
        ];
        assert(entries@ =~= utxo_dropped_entries());
        proof {
            assert forall|p: ParamValues| #[trigger] own_accounts(p, utxo_dropped_wallet_accounts()) implies records_dropped_utxo(entries@, p) by {
                lemma_utxo_dropped_releases_incoming(p);
            }
        }
        let params = UtxoDroppedParams::defs();
        proof {
            lemma_paired_balanced(entries@);
        }
        TxTemplateDef {
            id: UTXO_DROPPED_ID,
            code: UTXO_DROPPED_CODE,
            description: "'Onchain tx dropped'",
            with_correlation_id: false,
            entries,
            params,
        }
    }
}


/// What a dropped UTXO's posting records: the detection's record, and the
/// detecting ledger transaction.
#[derive(Clone, Debug)]
pub struct UtxoDroppedMeta {
    pub account_id: AccountId,
    pub wallet_id: WalletId,
    pub keychain_id: KeychainId,
    pub outpoint: OutPoint,
    pub satoshis: Satoshis,
    pub address: String,
    pub encumbered_spending_fees: EncumberedSpendingFees,
    pub confirmation_time: Option<BlockTime>,
    pub detected_txn_id: LedgerTransactionId,
}

#[derive(Clone, Debug)]
pub struct UtxoDroppedParams {
    pub journal_id: LedgerJournalId,
    pub onchain_incoming_account_id: LedgerAccountId,
    pub effective_incoming_account_id: LedgerAccountId,
    pub onchain_fee_account_id: LedgerAccountId,
    pub meta: UtxoDroppedMeta,
}

impl UtxoDroppedParams {
    /// The values of the posting: the UTXO's amount, and the total of the
    /// spending fees that were encumbered for it.
    pub fn values(&self) -> (v: TxParamValues)
        ensures
            v.ids@ == seq![
                ("journal_id", self.journal_id),
                ("onchain_incoming_account_id", self.onchain_incoming_account_id),
                ("effective_incoming_account_id", self.effective_incoming_account_id),
                ("onchain_fee_account_id", self.onchain_fee_account_id),
            ],
            v.amounts@ == seq![
                ("amount", self.meta.satoshis as i128),
                ("encumbered_spending_fees", fees_total(self.meta.encumbered_spending_fees@) as i128),
            ],
            v.flags@ == Seq::<(&'static str, bool)>::empty(),
            v.effective == match confirmation_timestamp(self.meta.confirmation_time) {
                Some(t) => EffectiveDate::Day(day_of(t)),
                None => EffectiveDate::Today,
            },
    {
        let fees = sum_fees(&self.meta.encumbered_spending_fees);
        let timestamp = match self.meta.confirmation_time {
            Some(t) => Some(t.timestamp),
            None => None,
        };
        let v = TxParamValues {
            ids: vec![
                ("journal_id", self.journal_id),
                ("onchain_incoming_account_id", self.onchain_incoming_account_id),
                ("effective_incoming_account_id", self.effective_incoming_account_id),
                ("onchain_fee_account_id", self.onchain_fee_account_id),
            ],
            amounts: vec![
                ("amount", self.meta.satoshis as i128),
                ("encumbered_spending_fees", fees),
            ],
            flags: Vec::new(),
            effective: effective_date(timestamp),
        };
        assert(v.ids@ =~= seq![
            ("journal_id", self.journal_id),
            ("onchain_incoming_account_id", self.onchain_incoming_account_id),
            ("effective_incoming_account_id", self.effective_incoming_account_id),
            ("onchain_fee_account_id", self.onchain_fee_account_id),
        ]);
        assert(v.amounts@ =~= seq![
            ("amount", self.meta.satoshis as i128),
            ("encumbered_spending_fees", fees_total(self.meta.encumbered_spending_fees@) as i128),
        ]);
        v
    }
}

/// Dropping a UTXO undoes its detection: posted with the same parameter
/// values, the entries of UTXO_DROPPED put on every account's every layer the
/// opposite of what the entries of UTXO_DETECTED put there.
pub proof fn lemma_utxo_dropped_reverses_detected(account: u128, layer: Layer, p: ParamValues)
    ensures
        account_net(utxo_dropped_entries(), account, layer, p)
            == -account_net(utxo_detected_entries(), account, layer, p),
{
    let a = utxo_detected_entries();
    let b = utxo_dropped_entries();
    assert(reverses(a, b)) by {
        assert forall|i: int| 0 <= i < a.len() implies {
            let x = #[trigger] a[i];
            let y = b[i];
            &&& y.account == x.account
            &&& y.layer == x.layer
            &&& y.units == x.units
            &&& y.direction == flipped(x.direction)
        } by {
            assert(0 <= i < 6);
            if i == 0 {} else if i == 1 {} else if i == 2 {} else if i == 3 {} else if i == 4 {} else {}
        }
    }
    lemma_reverses_negates(a, b, account, layer, p);
}

} // verus!
