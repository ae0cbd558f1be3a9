//! A UTXO paying into a wallet appears in the mempool: the effective and onchain incoming accounts are credited on the pending layer, and spending fees for it are encumbered.
use vstd::prelude::*;

use crate::ledger::constants::{EFFECTIVE_INCOMING_ID, ONCHAIN_FEE_ID, ONCHAIN_UTXO_INCOMING_ID, UTXO_DETECTED_CODE, UTXO_DETECTED_ID};
use crate::ledger::template::{
    account_net, is_omnibus, own_accounts, balanced, lemma_paired_balanced, AccountRef, Direction, EntryDef, Layer, ParamDef, ParamType, TxTemplateDef, Units, ParamValues, day_of, effective_date, EffectiveDate, TxParamValues,
};
use crate::ledger::entries::{last_account_of_type, posted, unquoted, utxo_detected_accounts};
use crate::ledger::error::LedgerError;
use crate::ledger::templates::shared_meta::{fees_total, sum_fees, EncumberedSpendingFees};
use crate::primitives::{AccountId, BlockTime, KeychainId, LedgerAccountId, LedgerJournalId, OutPoint, Satoshis, WalletId};

verus! {

pub open spec fn utxo_detected_entries() -> Seq<EntryDef> {
    seq![
        EntryDef {
            entry_type: "'UTXO_DETECTED_LOG_IN_PEN_DR'",
            account: AccountRef::Fixed(EFFECTIVE_INCOMING_ID),
            direction: Direction::Debit,
            layer: Layer::Pending,
            units: Units::Param("amount"),
        },
        EntryDef {
            entry_type: "'UTXO_DETECTED_LOG_IN_PEN_CR'",
            account: AccountRef::Param("effective_incoming_account_id"),
            direction: Direction::Credit,
            layer: Layer::Pending,
            units: Units::Param("amount"),
        },
        EntryDef {
            entry_type: "'UTXO_DETECTED_FR_ENC_DR'",
            account: AccountRef::Param("onchain_fee_account_id"),
            direction: Direction::Debit,
            layer: Layer::Encumbered,
            units: Units::Param("encumbered_spending_fees"),
        },
        EntryDef {
            entry_type: "'UTXO_DETECTED_FR_ENC_CR'",
            account: AccountRef::Fixed(ONCHAIN_FEE_ID),
            direction: Direction::Credit,
            layer: Layer::Encumbered,
            units: Units::Param("encumbered_spending_fees"),
        },
        EntryDef {
            entry_type: "'UTXO_DETECTED_UTX_IN_PEN_DR'",
            account: AccountRef::Fixed(ONCHAIN_UTXO_INCOMING_ID),
            direction: Direction::Debit,
            layer: Layer::Pending,
            units: Units::Param("amount"),
        },
        EntryDef {
            entry_type: "'UTXO_DETECTED_UTX_IN_PEN_CR'",
            account: AccountRef::Param("onchain_incoming_account_id"),
            direction: Direction::Credit,
            layer: Layer::Pending,
            units: Units::Param("amount"),
        },
    ]
}

/// The accounts of the wallet that a posting from this template names.
pub open spec fn utxo_detected_wallet_accounts() -> Set<Seq<char>> {
    set!["onchain_incoming_account_id"@, "effective_incoming_account_id"@, "onchain_fee_account_id"@]
}

/// What detecting a UTXO does to the wallet's balances (debits less
/// credits, so a credit-normal account that receives shows a negative net):
/// its amount becomes pending on the wallet's effective and onchain incoming
/// accounts, the fees to spend it later are encumbered on its fee account,
/// and the omnibus accounts take the other side of each.
pub open spec fn records_detected_utxo(es: Seq<EntryDef>, p: ParamValues) -> bool {
    &&& account_net(es, (p.id)("effective_incoming_account_id"@), Layer::Pending, p) == -(p.amount)("amount"@)
    &&& account_net(es, EFFECTIVE_INCOMING_ID, Layer::Pending, p) == (p.amount)("amount"@)
    &&& account_net(es, (p.id)("onchain_incoming_account_id"@), Layer::Pending, p) == -(p.amount)("amount"@)
    &&& account_net(es, ONCHAIN_UTXO_INCOMING_ID, Layer::Pending, p) == (p.amount)("amount"@)
    &&& account_net(es, (p.id)("onchain_fee_account_id"@), Layer::Encumbered, p) == (p.amount)("encumbered_spending_fees"@)
    &&& account_net(es, ONCHAIN_FEE_ID, Layer::Encumbered, p) == -(p.amount)("encumbered_spending_fees"@)
    &&& account_net(es, (p.id)("effective_incoming_account_id"@), Layer::Settled, p) == 0
    &&& account_net(es, (p.id)("onchain_incoming_account_id"@), Layer::Settled, p) == 0
}

/// Detecting a UTXO makes its amount pending incoming for the wallet and
/// encumbers the fees to spend it, as described by `records_detected_utxo`,
/// whatever the posting's amounts, as long as the wallet's accounts are its
/// own.
pub proof fn lemma_utxo_detected_records_incoming(p: ParamValues)
    requires
        own_accounts(p, utxo_detected_wallet_accounts()),
    ensures
        records_detected_utxo(utxo_detected_entries(), p),
{
    reveal_strlit("onchain_incoming_account_id");
    reveal_strlit("effective_incoming_account_id");
    reveal_strlit("onchain_fee_account_id");
    assert("onchain_incoming_account_id"@ != "effective_incoming_account_id"@) by { assert("onchain_incoming_account_id"@[0] != "effective_incoming_account_id"@[0]); }
    assert("onchain_incoming_account_id"@ != "onchain_fee_account_id"@) by { assert("onchain_incoming_account_id"@[8] != "onchain_fee_account_id"@[8]); }
    assert("effective_incoming_account_id"@ != "onchain_fee_account_id"@) by { assert("effective_incoming_account_id"@[0] != "onchain_fee_account_id"@[0]); }
    assert(!is_omnibus((p.id)("onchain_incoming_account_id"@)));
    assert(!is_omnibus((p.id)("effective_incoming_account_id"@)));
    assert(!is_omnibus((p.id)("onchain_fee_account_id"@)));
    assert((p.id)("onchain_incoming_account_id"@) != (p.id)("effective_incoming_account_id"@));
    assert((p.id)("onchain_incoming_account_id"@) != (p.id)("onchain_fee_account_id"@));
    assert((p.id)("effective_incoming_account_id"@) != (p.id)("onchain_fee_account_id"@));
    reveal_with_fuel(account_net, 7);
}

pub open spec fn utxo_detected_params() -> Seq<ParamDef> {
    seq![
        ParamDef { name: "journal_id", param_type: ParamType::Uuid, default_expr: None },
        ParamDef { name: "onchain_incoming_account_id", param_type: ParamType::Uuid, default_expr: None },
        ParamDef { name: "effective_incoming_account_id", param_type: ParamType::Uuid, default_expr: None },
        ParamDef { name: "onchain_fee_account_id", param_type: ParamType::Uuid, default_expr: None },
        ParamDef { name: "amount", param_type: ParamType::Decimal, default_expr: None },
        ParamDef { name: "encumbered_spending_fees", param_type: ParamType::Decimal, default_expr: None },
        ParamDef { name: "meta", param_type: ParamType::Json, default_expr: None },
        ParamDef { name: "effective", param_type: ParamType::Date, default_expr: None },
    ]
}

/// A UTXO paying into a wallet appears in the mempool: the effective and onchain incoming accounts are credited on the pending layer, and spending fees for it are encumbered.
pub struct UtxoDetected {}

impl UtxoDetectedParams {
    /// The parameters the template takes.
    pub fn defs() -> (defs: Vec<ParamDef>)
        ensures
            defs@ == utxo_detected_params(),
    {
        let defs = vec![
            ParamDef { name: "journal_id", param_type: ParamType::Uuid, default_expr: None },
            ParamDef { name: "onchain_incoming_account_id", param_type: ParamType::Uuid, default_expr: None },
            ParamDef { name: "effective_incoming_account_id", param_type: ParamType::Uuid, default_expr: None },
            ParamDef { name: "onchain_fee_account_id", param_type: ParamType::Uuid, default_expr: None },
            ParamDef { name: "amount", param_type: ParamType::Decimal, default_expr: None },
            ParamDef { name: "encumbered_spending_fees", param_type: ParamType::Decimal, default_expr: None },
            ParamDef { name: "meta", param_type: ParamType::Json, default_expr: None },
            ParamDef { name: "effective", param_type: ParamType::Date, default_expr: None },
        ];
        assert(defs@ =~= utxo_detected_params());
        defs
    }
}

impl UtxoDetected {
    /// The template; its entries balance on every layer, whatever its parameters.
    pub fn template() -> (t: TxTemplateDef)
        ensures
            t.id == UTXO_DETECTED_ID,
            t.code == UTXO_DETECTED_CODE,
            t.description@ == "'Onchain tx in mempool'"@,
            t.with_correlation_id == false,
            t.entries@ == utxo_detected_entries(),
            t.params@ == utxo_detected_params(),
            balanced(t.entries@),
            forall|p: ParamValues| #[trigger] own_accounts(p, utxo_detected_wallet_accounts()) ==> records_detected_utxo(t.entries@, p),
    {
        let entries = vec![
            EntryDef {
                entry_type: "'UTXO_DETECTED_LOG_IN_PEN_DR'",
                account: AccountRef::Fixed(EFFECTIVE_INCOMING_ID),
                direction: Direction::Debit,
                layer: Layer::Pending,
                units: Units::Param("amount"),
            },
            EntryDef {
                entry_type: "'UTXO_DETECTED_LOG_IN_PEN_CR'",
                account: AccountRef::Param("effective_incoming_account_id"),
                direction: Direction::Credit,
                layer: Layer::Pending,
                units: Units::Param("amount"),
            },
            EntryDef {
                entry_type: "'UTXO_DETECTED_FR_ENC_DR'",
                account: AccountRef::Param("onchain_fee_account_id"),
                direction: Direction::Debit,
                layer: Layer::Encumbered,
                units: Units::Param("encumbered_spending_fees"),
            },
            EntryDef {
                entry_type: "'UTXO_DETECTED_FR_ENC_CR'",
                account: AccountRef::Fixed(ONCHAIN_FEE_ID),
                direction: Direction::Credit,
                layer: Layer::Encumbered,
                units: Units::Param("encumbered_spending_fees"),
            },
            EntryDef {
                entry_type: "'UTXO_DETECTED_UTX_IN_PEN_DR'",
                account: AccountRef::Fixed(ONCHAIN_UTXO_INCOMING_ID),
                direction: Direction::Debit,
                layer: Layer::Pending,
                units: Units::Param("amount"),
            },
            EntryDef {
                entry_type: "'UTXO_DETECTED_UTX_IN_PEN_CR'",
                account: AccountRef::Param("onchain_incoming_account_id"),
                direction: Direction::Credit,
                layer: Layer::Pending,
                units: Units::Param("amount"),
            },
        ];
        assert(entries@ =~= utxo_detected_entries());
        proof {
            assert forall|p: ParamValues| #[trigger] own_accounts(p, utxo_detected_wallet_accounts()) implies records_detected_utxo(entries@, p) by {
                lemma_utxo_detected_records_incoming(p);
            }
        }
        let params = UtxoDetectedParams::defs();
        proof {
            lemma_paired_balanced(entries@);
        }
        TxTemplateDef {
            id: UTXO_DETECTED_ID,
            code: UTXO_DETECTED_CODE,
            description: "'Onchain tx in mempool'",
            with_correlation_id: false,
            entries,
            params,
        }
    }
}


/// What a detected UTXO's posting records.
#[derive(Clone, Debug)]
pub struct UtxoDetectedMeta {
    pub account_id: AccountId,
    pub wallet_id: WalletId,
    pub keychain_id: KeychainId,
    pub outpoint: OutPoint,
    pub satoshis: Satoshis,
    pub address: String,
    pub encumbered_spending_fees: EncumberedSpendingFees,
    pub confirmation_time: Option<BlockTime>,
}

#[derive(Clone, Debug)]
pub struct UtxoDetectedParams {
    pub journal_id: LedgerJournalId,
    pub onchain_incoming_account_id: LedgerAccountId,
    pub effective_incoming_account_id: LedgerAccountId,
    pub onchain_fee_account_id: LedgerAccountId,
    pub meta: UtxoDetectedMeta,
}

pub open spec fn confirmation_timestamp(t: Option<BlockTime>) -> Option<u64> {
    match t {
        Some(b) => Some(b.timestamp),
        None => None,
    }
}

impl UtxoDetectedParams {
    /// The values of the posting: the UTXO's amount, and the total of the
    /// spending fees encumbered for it.
    pub fn values(&self) -> (v: TxParamValues)
        ensures
            v.ids@ == seq![
                ("journal_id", self.journal_id),
                ("onchain_incoming_account_id", self.onchain_incoming_account_id),
                ("effective_incoming_account_id", self.effective_incoming_account_id),
                ("onchain_fee_account_id", self.onchain_fee_account_id),
            ],
            v.amounts@ == seq![
                ("amount", self.meta.satoshis as i128),
                ("encumbered_spending_fees", fees_total(self.meta.encumbered_spending_fees@) as i128),
            ],
            v.flags@ == Seq::<(&'static str, bool)>::empty(),
            v.effective == match confirmation_timestamp(self.meta.confirmation_time) {
                Some(t) => EffectiveDate::Day(day_of(t)),
                None => EffectiveDate::Today,
            },
    {
        let fees = sum_fees(&self.meta.encumbered_spending_fees);
        let timestamp = match self.meta.confirmation_time {
            Some(t) => Some(t.timestamp),
            None => None,
        };
        let v = TxParamValues {
            ids: vec![
                ("journal_id", self.journal_id),
                ("onchain_incoming_account_id", self.onchain_incoming_account_id),
                ("effective_incoming_account_id", self.effective_incoming_account_id),
                ("onchain_fee_account_id", self.onchain_fee_account_id),
            ],
            amounts: vec![
                ("amount", self.meta.satoshis as i128),
                ("encumbered_spending_fees", fees),
            ],
            flags: Vec::new(),
            effective: effective_date(timestamp),
        };
        assert(v.ids@ =~= seq![
            ("journal_id", self.journal_id),
            ("onchain_incoming_account_id", self.onchain_incoming_account_id),
            ("effective_incoming_account_id", self.effective_incoming_account_id),
            ("onchain_fee_account_id", self.onchain_fee_account_id),
        ]);
        assert(v.amounts@ =~= seq![
            ("amount", self.meta.satoshis as i128),
            ("encumbered_spending_fees", fees_total(self.meta.encumbered_spending_fees@) as i128),
        ]);
        v
    }
}


/// What a UTXO's detection posts can be read back: the entries it stores give
/// back the onchain incoming, effective incoming and fee accounts it was
/// posted with.
pub proof fn lemma_utxo_detected_accounts_read_back(p: ParamValues)
    ensures
        utxo_detected_accounts(posted(utxo_detected_entries(), p)) == Ok::<_, LedgerError>((
            (p.id)("onchain_incoming_account_id"@),
            (p.id)("effective_incoming_account_id"@),
            (p.id)("onchain_fee_account_id"@),
        )),
{
    reveal_strlit("'UTXO_DETECTED_LOG_IN_PEN_DR'");
    reveal_strlit("'UTXO_DETECTED_LOG_IN_PEN_CR'");
    reveal_strlit("'UTXO_DETECTED_FR_ENC_DR'");
    reveal_strlit("'UTXO_DETECTED_FR_ENC_CR'");
    reveal_strlit("'UTXO_DETECTED_UTX_IN_PEN_DR'");
    reveal_strlit("'UTXO_DETECTED_UTX_IN_PEN_CR'");
    reveal_strlit("UTXO_DETECTED_LOG_IN_PEN_CR");
    reveal_strlit("UTXO_DETECTED_FR_ENC_DR");
    reveal_strlit("UTXO_DETECTED_UTX_IN_PEN_CR");
    reveal_strlit("effective_incoming_account_id");
    reveal_strlit("onchain_fee_account_id");
    reveal_strlit("onchain_incoming_account_id");
    let es = posted(utxo_detected_entries(), p);
    let t0 = unquoted("'UTXO_DETECTED_LOG_IN_PEN_DR'"@);
    let t1 = unquoted("'UTXO_DETECTED_LOG_IN_PEN_CR'"@);
    let t2 = unquoted("'UTXO_DETECTED_FR_ENC_DR'"@);
    let t3 = unquoted("'UTXO_DETECTED_FR_ENC_CR'"@);
    let t4 = unquoted("'UTXO_DETECTED_UTX_IN_PEN_DR'"@);
    let t5 = unquoted("'UTXO_DETECTED_UTX_IN_PEN_CR'"@);
    assert(t1 =~= "UTXO_DETECTED_LOG_IN_PEN_CR"@);
    assert(t2 =~= "UTXO_DETECTED_FR_ENC_DR"@);
    assert(t5 =~= "UTXO_DETECTED_UTX_IN_PEN_CR"@);
    assert(es.len() == 6);
    assert(es[5].entry_type == t5 && es[5].account_id == (p.id)("onchain_incoming_account_id"@));
    assert(es[1].entry_type == t1 && es[1].account_id == (p.id)("effective_incoming_account_id"@));
    assert(es[2].entry_type == t2 && es[2].account_id == (p.id)("onchain_fee_account_id"@));
    assert(es[0].entry_type == t0 && es[3].entry_type == t3 && es[4].entry_type == t4);
    // the types differ at their 15th or 20th character, or in length
    assert(t0[14] == 'L' && t1[14] == 'L' && t2[14] == 'F' && t3[14] == 'F' && t4[14] == 'U' && t5[14] == 'U');
    assert(t0.len() == 27 && t1.len() == 27 && t4.len() == 27 && t5.len() == 27 && t2.len() == 23 && t3.len() == 23);
    assert(t0[26] == 'R' && t1[26] == 'R' && t4[26] == 'R' && t5[26] == 'R');
    assert(t0[25] == 'D' && t1[25] == 'C' && t4[25] == 'D' && t5[25] == 'C');
    assert(t2[21] == 'D' && t3[21] == 'C');
    reveal_with_fuel(last_account_of_type, 7);
    let e5 = es.drop_last();
    let e4 = e5.drop_last();
    let e3 = e4.drop_last();
    let e2 = e3.drop_last();
    assert(last_account_of_type(es, t5) == Some((p.id)("onchain_incoming_account_id"@)));
    assert(es.last().entry_type != t1 && e5.last().entry_type != t1 && e4.last().entry_type != t1
        && e3.last().entry_type != t1);
    assert(last_account_of_type(e2, t1) == Some((p.id)("effective_incoming_account_id"@)));
    assert(last_account_of_type(es, t1) == Some((p.id)("effective_incoming_account_id"@)));
    assert(es.last().entry_type != t2 && e5.last().entry_type != t2 && e4.last().entry_type != t2);
    assert(last_account_of_type(e3, t2) == Some((p.id)("onchain_fee_account_id"@)));
    assert(last_account_of_type(es, t2) == Some((p.id)("onchain_fee_account_id"@)));
}

} // verus!
