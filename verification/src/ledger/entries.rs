//! Entries as the ledger stores them once a transaction is posted, and what
//! later postings read back from them.
use vstd::prelude::*;

use super::error::LedgerError;
use super::template::{account_value, units_value, Direction, EntryDef, Layer, ParamValues};
use super::wallet_accounts::WalletLedgerAccountIds;
use crate::primitives::{LedgerAccountId, LedgerTransactionId};

verus! {

/// A stored entry of a posted transaction.
#[derive(Clone, Debug)]
pub struct LedgerEntry {
    pub transaction_id: LedgerTransactionId,
    pub entry_type: String,
    pub account_id: LedgerAccountId,
    pub direction: Direction,
    pub layer: Layer,
    /// In satoshis.
    pub units: i128,
}

/// A stored entry, as a value.
pub struct PostedEntry {
    pub entry_type: Seq<char>,
    pub account_id: LedgerAccountId,
    pub direction: Direction,
    pub layer: Layer,
    pub units: int,
}

pub open spec fn posted_view(e: LedgerEntry) -> PostedEntry {
    PostedEntry {
        entry_type: e.entry_type@,
        account_id: e.account_id,
        direction: e.direction,
        layer: e.layer,
        units: e.units as int,
    }
}

pub open spec fn posted_views(es: Seq<LedgerEntry>) -> Seq<PostedEntry> {
    es.map_values(|e: LedgerEntry| posted_view(e))
}

/// The text between the quotes of a quoted literal.
pub open spec fn unquoted(s: Seq<char>) -> Seq<char> {
    s.subrange(1, s.len() - 1)
}

/// The entries the ledger stores when it posts a template's entries with the
/// given parameter values.
pub open spec fn posted(es: Seq<EntryDef>, p: ParamValues) -> Seq<PostedEntry> {
    es.map_values(|e: EntryDef| PostedEntry {
        entry_type: unquoted(e.entry_type@),
        account_id: account_value(e.account, p),
        direction: e.direction,
        layer: e.layer,
        units: units_value(e.units, p),
    })
}

/// The account of the last entry of the given type, if any.
pub open spec fn last_account_of_type(es: Seq<PostedEntry>, ty: Seq<char>) -> Option<LedgerAccountId>
    decreases es.len(),
{
    if es.len() == 0 {
        None
    } else if es.last().entry_type == ty {
        Some(es.last().account_id)
    } else {
        last_account_of_type(es.drop_last(), ty)
    }
}

/// The account and units of the last entry of the given type, if any.
pub open spec fn last_entry_of_type(es: Seq<PostedEntry>, ty: Seq<char>) -> Option<(LedgerAccountId, int)>
    decreases es.len(),
{
    if es.len() == 0 {
        None
    } else if es.last().entry_type == ty {
        Some((es.last().account_id, es.last().units))
    } else {
        last_entry_of_type(es.drop_last(), ty)
    }
}

/// The account of the first entry of the given type, if any.
pub open spec fn first_account_of_type(es: Seq<PostedEntry>, ty: Seq<char>) -> Option<LedgerAccountId>
    decreases es.len(),
{
    if es.len() == 0 {
        None
    } else if es[0].entry_type == ty {
        Some(es[0].account_id)
    } else {
        first_account_of_type(es.drop_first(), ty)
    }
}

/// The accounts a UTXO's detection credited: onchain incoming, effective
/// incoming, and the fee account it encumbered spending fees on.
pub open spec fn utxo_detected_accounts(es: Seq<PostedEntry>) -> Result<
    (LedgerAccountId, LedgerAccountId, LedgerAccountId),
    LedgerError,
> {
    match (
        last_account_of_type(es, "UTXO_DETECTED_UTX_IN_PEN_CR"@),
        last_account_of_type(es, "UTXO_DETECTED_LOG_IN_PEN_CR"@),
        last_account_of_type(es, "UTXO_DETECTED_FR_ENC_DR"@),
    ) {
        (None, _, _) => Err(LedgerError::ExpectedEntryNotFoundInTx("Onchain incoming account ID not found")),
        (Some(_), None, _) => Err(LedgerError::ExpectedEntryNotFoundInTx("Effective incoming account ID not found")),
        (Some(_), Some(_), None) => Err(LedgerError::ExpectedEntryNotFoundInTx("Onchain fee account ID not found")),
        (Some(a), Some(b), Some(c)) => Ok((a, b, c)),
    }
}

/// The entry types by which a batch's creation is read back.
pub open spec fn batch_created_types() -> Seq<Seq<char>> {
    seq![
        "BATCH_CREATED_LOG_OUT_ENC_DR"@,
        "BATCH_CREATED_LOG_SET_DR"@,
        "BATCH_CREATED_FR_ENC_CR"@,
        "BATCH_CREATED_UTX_OUT_PEN_CR"@,
        "BATCH_CREATED_CHG_ENC_CR"@,
        "BATCH_CREATED_UTX_SET_DR"@,
    ]
}

pub open spec fn or_default(o: Option<LedgerAccountId>, d: LedgerAccountId) -> LedgerAccountId {
    match o {
        Some(a) => a,
        None => d,
    }
}

/// The accounts and encumbered fees that a batch's creation used, read from
/// its entries; accounts it has no entry for stay as `defaults` has them.
pub open spec fn batch_created_accounts(es: Seq<PostedEntry>, defaults: WalletLedgerAccountIds) -> (
    WalletLedgerAccountIds,
    int,
) {
    (
        WalletLedgerAccountIds {
            effective_outgoing_id: or_default(last_account_of_type(es, "BATCH_CREATED_LOG_OUT_ENC_DR"@), defaults.effective_outgoing_id),
            effective_at_rest_id: or_default(last_account_of_type(es, "BATCH_CREATED_LOG_SET_DR"@), defaults.effective_at_rest_id),
            fee_id: or_default(last_account_of_type(es, "BATCH_CREATED_FR_ENC_CR"@), defaults.fee_id),
            onchain_outgoing_id: or_default(last_account_of_type(es, "BATCH_CREATED_UTX_OUT_PEN_CR"@), defaults.onchain_outgoing_id),
            onchain_incoming_id: or_default(last_account_of_type(es, "BATCH_CREATED_CHG_ENC_CR"@), defaults.onchain_incoming_id),
            onchain_at_rest_id: or_default(last_account_of_type(es, "BATCH_CREATED_UTX_SET_DR"@), defaults.onchain_at_rest_id),
            ..defaults
        },
        match last_entry_of_type(es, "BATCH_CREATED_FR_ENC_CR"@) {
            Some((_, u)) => u,
            None => 0,
        },
    )
}

pub(crate) fn str_eq(a: &str, b: &str) -> (r: bool)
    ensures
        r == (a@ == b@),
{
    let n = a.unicode_len();
    let m = b.unicode_len();
    if n != m {
        return false;
    }
    let mut i: usize = 0;
    while i < n
        invariant
            n == a@.len(),
            m == b@.len(),
            n == m,
            i <= n,
            forall|j: int| 0 <= j < i ==> a@[j] == b@[j],
        decreases n - i,
    {
        if a.get_char(i) != b.get_char(i) {
            return false;
        }
        i = i + 1;
    }
    assert(a@ =~= b@);
    true
}

/// Reads back the accounts of a UTXO's detection from the entries it posted:
/// each is the account of the last entry of its type.
pub fn find_utxo_detected_accounts(entries: &Vec<LedgerEntry>) -> (r: Result<
    (LedgerAccountId, LedgerAccountId, LedgerAccountId),
    LedgerError,
>)
    ensures
        r == utxo_detected_accounts(posted_views(entries@)),
{
    let mut onchain_incoming_account_id: Option<LedgerAccountId> = None;
    let mut effective_incoming_account_id: Option<LedgerAccountId> = None;
    let mut onchain_fee_account_id: Option<LedgerAccountId> = None;
    let mut i: usize = 0;
    while i < entries.len()
        invariant
            i <= entries.len(),
            onchain_incoming_account_id == last_account_of_type(posted_views(entries@.take(i as int)), "UTXO_DETECTED_UTX_IN_PEN_CR"@),
            effective_incoming_account_id == last_account_of_type(posted_views(entries@.take(i as int)), "UTXO_DETECTED_LOG_IN_PEN_CR"@),
            onchain_fee_account_id == last_account_of_type(posted_views(entries@.take(i as int)), "UTXO_DETECTED_FR_ENC_DR"@),
        decreases entries.len() - i,
    {
        let entry = &entries[i];
        proof {
            assert(posted_views(entries@.take(i + 1)).drop_last() =~= posted_views(entries@.take(i as int)));
            assert(posted_views(entries@.take(i + 1)).last() == posted_view(entries@[i as int]));
        }
        proof {
            reveal_strlit("UTXO_DETECTED_UTX_IN_PEN_CR");
            reveal_strlit("UTXO_DETECTED_LOG_IN_PEN_CR");
            reveal_strlit("UTXO_DETECTED_FR_ENC_DR");
            assert("UTXO_DETECTED_UTX_IN_PEN_CR"@[14] != "UTXO_DETECTED_LOG_IN_PEN_CR"@[14]);
            assert("UTXO_DETECTED_UTX_IN_PEN_CR"@[14] != "UTXO_DETECTED_FR_ENC_DR"@[14]);
            assert("UTXO_DETECTED_LOG_IN_PEN_CR"@[14] != "UTXO_DETECTED_FR_ENC_DR"@[14]);
        }
        if str_eq(entry.entry_type.as_str(), "UTXO_DETECTED_UTX_IN_PEN_CR") {
            onchain_incoming_account_id = Some(entry.account_id);
        } else if str_eq(entry.entry_type.as_str(), "UTXO_DETECTED_LOG_IN_PEN_CR") {
            effective_incoming_account_id = Some(entry.account_id);
        } else if str_eq(entry.entry_type.as_str(), "UTXO_DETECTED_FR_ENC_DR") {
            onchain_fee_account_id = Some(entry.account_id);
        }
        i = i + 1;
    }
    assert(entries@.take(entries.len() as int) =~= entries@);
    let onchain_incoming_account_id = match onchain_incoming_account_id {
        Some(a) => a,
        None => {
            return Err(LedgerError::ExpectedEntryNotFoundInTx("Onchain incoming account ID not found"));
        },
    };
    let effective_incoming_account_id = match effective_incoming_account_id {
        Some(a) => a,
        None => {
            return Err(LedgerError::ExpectedEntryNotFoundInTx("Effective incoming account ID not found"));
        },
    };
    let onchain_fee_account_id = match onchain_fee_account_id {
        Some(a) => a,
        None => {
            return Err(LedgerError::ExpectedEntryNotFoundInTx("Onchain fee account ID not found"));
        },
    };
    Ok((onchain_incoming_account_id, effective_incoming_account_id, onchain_fee_account_id))
}


/// The last entry of a type is the one after which no entry has that type.
pub proof fn lemma_last_account_of_type_at(es: Seq<PostedEntry>, ty: Seq<char>, k: int)
    requires
        0 <= k < es.len(),
        es[k].entry_type == ty,
        forall|j: int| k < j < es.len() ==> #[trigger] es[j].entry_type != ty,
    ensures
        last_account_of_type(es, ty) == Some(es[k].account_id),
        last_entry_of_type(es, ty) == Some((es[k].account_id, es[k].units)),
    decreases es.len(),
{
    if k < es.len() - 1 {
        let d = es.drop_last();
        assert(es[es.len() - 1].entry_type != ty);
        assert forall|j: int| k < j < d.len() implies #[trigger] d[j].entry_type != ty by {
            assert(d[j] == es[j]);
        }
        lemma_last_account_of_type_at(d, ty, k);
    }
}

/// The omnibus accounts.
pub open spec fn omnibus_account_ids() -> WalletLedgerAccountIds {
    WalletLedgerAccountIds {
        onchain_incoming_id: super::constants::ONCHAIN_UTXO_INCOMING_ID,
        onchain_at_rest_id: super::constants::ONCHAIN_UTXO_AT_REST_ID,
        onchain_outgoing_id: super::constants::ONCHAIN_UTXO_OUTGOING_ID,
        effective_incoming_id: super::constants::EFFECTIVE_INCOMING_ID,
        effective_at_rest_id: super::constants::EFFECTIVE_AT_REST_ID,
        effective_outgoing_id: super::constants::EFFECTIVE_OUTGOING_ID,
        fee_id: super::constants::ONCHAIN_FEE_ID,
        dust_id: 0,
    }
}

/// Reads back the accounts and encumbered fees of a batch's creation from
/// the entries it posted; accounts it has no entry for are the omnibus ones.
pub fn find_batch_created_accounts(entries: &Vec<LedgerEntry>) -> (r: (WalletLedgerAccountIds, i128))
    ensures
        r.0 == batch_created_accounts(posted_views(entries@), omnibus_account_ids()).0,
        r.1 as int == batch_created_accounts(posted_views(entries@), omnibus_account_ids()).1,
{
    let mut ids = WalletLedgerAccountIds::default();
    let mut encumbered_fees: i128 = 0;
    let ghost d = omnibus_account_ids();
    let mut i: usize = 0;
    while i < entries.len()
        invariant
            i <= entries.len(),
            d == omnibus_account_ids(),
            ({
                let (x, f) = batch_created_accounts(posted_views(entries@.take(i as int)), d);
                ids == x && encumbered_fees as int == f
            }),
        decreases entries.len() - i,
    {
        let entry = &entries[i];
        proof {
            assert(posted_views(entries@.take(i + 1)).drop_last() =~= posted_views(entries@.take(i as int)));
            assert(posted_views(entries@.take(i + 1)).last() == posted_view(entries@[i as int]));
        }
        proof {
            reveal_strlit("BATCH_CREATED_LOG_OUT_ENC_DR");
            reveal_strlit("BATCH_CREATED_LOG_SET_DR");
            reveal_strlit("BATCH_CREATED_FR_ENC_CR");
            reveal_strlit("BATCH_CREATED_UTX_OUT_PEN_CR");
            reveal_strlit("BATCH_CREATED_CHG_ENC_CR");
            reveal_strlit("BATCH_CREATED_UTX_SET_DR");
            assert("BATCH_CREATED_LOG_OUT_ENC_DR"@[14] == 'L' && "BATCH_CREATED_LOG_OUT_ENC_DR"@[18] == 'O');
            assert("BATCH_CREATED_LOG_SET_DR"@[14] == 'L' && "BATCH_CREATED_LOG_SET_DR"@[18] == 'S');
            assert("BATCH_CREATED_FR_ENC_CR"@[14] == 'F');
            assert("BATCH_CREATED_UTX_OUT_PEN_CR"@[14] == 'U' && "BATCH_CREATED_UTX_OUT_PEN_CR"@[18] == 'O');
            assert("BATCH_CREATED_CHG_ENC_CR"@[14] == 'C');
            assert("BATCH_CREATED_UTX_SET_DR"@[14] == 'U' && "BATCH_CREATED_UTX_SET_DR"@[18] == 'S');
        }
        let ty = entry.entry_type.as_str();
        if str_eq(ty, "BATCH_CREATED_LOG_OUT_ENC_DR") {
            ids.effective_outgoing_id = entry.account_id;
        } else if str_eq(ty, "BATCH_CREATED_LOG_SET_DR") {
            ids.effective_at_rest_id = entry.account_id;
        } else if str_eq(ty, "BATCH_CREATED_FR_ENC_CR") {
            ids.fee_id = entry.account_id;
            encumbered_fees = entry.units;
        } else if str_eq(ty, "BATCH_CREATED_UTX_OUT_PEN_CR") {
            ids.onchain_outgoing_id = entry.account_id;
        } else if str_eq(ty, "BATCH_CREATED_CHG_ENC_CR") {
            ids.onchain_incoming_id = entry.account_id;
        } else if str_eq(ty, "BATCH_CREATED_UTX_SET_DR") {
            ids.onchain_at_rest_id = entry.account_id;
        }
        i = i + 1;
    }
    assert(entries@.take(entries.len() as int) =~= entries@);
    (ids, encumbered_fees)
}

} // verus!
