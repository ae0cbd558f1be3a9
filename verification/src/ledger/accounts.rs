//! The ledger accounts and journals the service creates: their codes, names
//! and descriptions.
use vstd::prelude::*;

use super::constants::{
    EFFECTIVE_AT_REST_CODE, EFFECTIVE_AT_REST_ID, EFFECTIVE_INCOMING_CODE, EFFECTIVE_INCOMING_ID,
    EFFECTIVE_OUTGOING_CODE, EFFECTIVE_OUTGOING_ID, ONCHAIN_FEE_CODE, ONCHAIN_FEE_ID,
    ONCHAIN_UTXO_AT_REST_CODE, ONCHAIN_UTXO_AT_REST_ID, ONCHAIN_UTXO_INCOMING_CODE,
    ONCHAIN_UTXO_INCOMING_ID, ONCHAIN_UTXO_OUTGOING_CODE, ONCHAIN_UTXO_OUTGOING_ID,
};
use super::error::{CreateError, LedgerError};
use super::wallet_accounts::{wallet_id_prefix, WalletLedgerAccountIds};
use crate::primitives::LedgerAccountId;

verus! {

/// The side on which an account's balance normally grows.
#[derive(Clone, Copy, Debug, PartialEq, Eq, Structural)]
pub enum DebitOrCredit {
    Debit,
    Credit,
}

/// An account to create in the ledger. Without a normal balance type the
/// ledger's own default applies.
#[derive(Clone, Debug)]
pub struct NewLedgerAccount {
    pub id: LedgerAccountId,
    pub code: String,
    pub name: String,
    pub description: String,
    pub normal_balance_type: Option<DebitOrCredit>,
}

/// How one of a wallet's accounts is named: the code's ending, the name's
/// ending, and its normal balance type.
pub open spec fn wallet_account_naming(k: int) -> (Seq<char>, Seq<char>, DebitOrCredit) {
    if k == 0 {
        ("_UTXO_INCOMING"@, "-utxo-incoming"@, DebitOrCredit::Credit)
    } else if k == 1 {
        ("_UTXO_AT_REST"@, "-utxo-at-rest"@, DebitOrCredit::Credit)
    } else if k == 2 {
        ("_UTXO_OUTGOING"@, "-utxo-outgoing"@, DebitOrCredit::Credit)
    } else if k == 3 {
        ("_EFFECTIVE_INCOMING"@, "-effective-incoming"@, DebitOrCredit::Credit)
    } else if k == 4 {
        ("_EFFECTIVE_AT_REST"@, "-effective-at-rest"@, DebitOrCredit::Credit)
    } else if k == 5 {
        ("_EFFECTIVE_OUTGOING"@, "-effective-outgoing"@, DebitOrCredit::Credit)
    } else if k == 6 {
        ("_ONCHAIN_FEE"@, "-onchain-fee"@, DebitOrCredit::Debit)
    } else {
        ("_DUST"@, "-dust"@, DebitOrCredit::Credit)
    }
}

/// A wallet's accounts in the order they are created.
pub open spec fn wallet_account_id(ids: WalletLedgerAccountIds, k: int) -> LedgerAccountId {
    if k == 0 {
        ids.onchain_incoming_id
    } else if k == 1 {
        ids.onchain_at_rest_id
    } else if k == 2 {
        ids.onchain_outgoing_id
    } else if k == 3 {
        ids.effective_incoming_id
    } else if k == 4 {
        ids.effective_at_rest_id
    } else if k == 5 {
        ids.effective_outgoing_id
    } else if k == 6 {
        ids.fee_id
    } else {
        ids.dust_id
    }
}

/// Whether `a` is the `k`-th account of a wallet whose accounts' names carry `prefix`.
pub open spec fn is_wallet_account(a: NewLedgerAccount, ids: WalletLedgerAccountIds, prefix: Seq<char>, k: int) -> bool {
    let (code_end, name_end, balance) = wallet_account_naming(k);
    &&& a.id == wallet_account_id(ids, k)
    &&& a.code@ == "WALLET_"@ + prefix + code_end
    &&& a.name@ == prefix + name_end
    &&& a.description@ == "Account for wallet '"@ + prefix + "'"@
    &&& a.normal_balance_type == Some(balance)
}

fn wallet_account(
    id: LedgerAccountId,
    prefix: &str,
    code_end: &str,
    name_end: &str,
    balance: DebitOrCredit,
) -> (a: NewLedgerAccount)
    ensures
        a.id == id,
        a.code@ == "WALLET_"@ + prefix@ + code_end@,
        a.name@ == prefix@ + name_end@,
        a.description@ == "Account for wallet '"@ + prefix@ + "'"@,
        a.normal_balance_type == Some(balance),
{
    let mut code = String::new();
    code.append("WALLET_");
    code.append(prefix);
    code.append(code_end);
    let mut name = String::new();
    name.append(prefix);
    name.append(name_end);
    let mut description = String::new();
    description.append("Account for wallet '");
    description.append(prefix);
    description.append("'");
    NewLedgerAccount { id, code, name, description, normal_balance_type: Some(balance) }
}

/// The eight accounts to create for a wallet, each named after the wallet's
/// id prefix.
pub fn wallet_ledger_accounts(ids: &WalletLedgerAccountIds) -> (accounts: Vec<NewLedgerAccount>)
    ensures
        accounts@.len() == 8,
        forall|k: int| 0 <= k < 8 ==> is_wallet_account(#[trigger] accounts@[k], *ids, wallet_id_prefix(*ids), k),
{
    let prefix = ids.get_wallet_id_prefix();
    let p = prefix.as_str();
    let mut accounts = Vec::new();
    accounts.push(wallet_account(ids.onchain_incoming_id, p, "_UTXO_INCOMING", "-utxo-incoming", DebitOrCredit::Credit));
    accounts.push(wallet_account(ids.onchain_at_rest_id, p, "_UTXO_AT_REST", "-utxo-at-rest", DebitOrCredit::Credit));
    accounts.push(wallet_account(ids.onchain_outgoing_id, p, "_UTXO_OUTGOING", "-utxo-outgoing", DebitOrCredit::Credit));
    accounts.push(wallet_account(ids.effective_incoming_id, p, "_EFFECTIVE_INCOMING", "-effective-incoming", DebitOrCredit::Credit));
    accounts.push(wallet_account(ids.effective_at_rest_id, p, "_EFFECTIVE_AT_REST", "-effective-at-rest", DebitOrCredit::Credit));
    accounts.push(wallet_account(ids.effective_outgoing_id, p, "_EFFECTIVE_OUTGOING", "-effective-outgoing", DebitOrCredit::Credit));
    accounts.push(wallet_account(ids.fee_id, p, "_ONCHAIN_FEE", "-onchain-fee", DebitOrCredit::Debit));
    accounts.push(wallet_account(ids.dust_id, p, "_DUST", "-dust", DebitOrCredit::Credit));
    assert forall|k: int| 0 <= k < 8 implies is_wallet_account(#[trigger] accounts@[k], *ids, wallet_id_prefix(*ids), k) by {
        if k == 0 {} else if k == 1 {} else if k == 2 {} else if k == 3 {} else if k == 4 {} else if k == 5 {} else if k == 6 {} else {}
    }
    accounts
}

fn omnibus_account(
    code: &'static str,
    id: LedgerAccountId,
    description: &str,
    normal_balance_type: Option<DebitOrCredit>,
) -> (a: NewLedgerAccount)
    ensures
        a.id == id,
        a.code@ == code@,
        a.name@ == code@,
        a.description@ == description@,
        a.normal_balance_type == normal_balance_type,
{
    NewLedgerAccount {
        id,
        code: code.to_owned(),
        name: code.to_owned(),
        description: description.to_owned(),
        normal_balance_type,
    }
}

/// The omnibus accounts the ledger starts with, each named by its code.
pub fn omnibus_ledger_accounts() -> (accounts: Vec<NewLedgerAccount>)
    ensures
        accounts@.len() == 7,
        accounts@[0].id == ONCHAIN_UTXO_INCOMING_ID && accounts@[0].code@ == ONCHAIN_UTXO_INCOMING_CODE@
            && accounts@[0].name@ == ONCHAIN_UTXO_INCOMING_CODE@
            && accounts@[0].description@ == "Account for onchain incoming unconfirmed funds"@
            && accounts@[0].normal_balance_type == Some(DebitOrCredit::Debit),
        accounts@[1].id == ONCHAIN_UTXO_AT_REST_ID && accounts@[1].code@ == ONCHAIN_UTXO_AT_REST_CODE@
            && accounts@[1].name@ == ONCHAIN_UTXO_AT_REST_CODE@
            && accounts@[1].description@ == "Account for settlement of onchain funds"@
            && accounts@[1].normal_balance_type == Some(DebitOrCredit::Debit),
        accounts@[2].id == ONCHAIN_UTXO_OUTGOING_ID && accounts@[2].code@ == ONCHAIN_UTXO_OUTGOING_CODE@
            && accounts@[2].name@ == ONCHAIN_UTXO_OUTGOING_CODE@
            && accounts@[2].description@ == "Account for outgoing onchain funds"@
            && accounts@[2].normal_balance_type == Some(DebitOrCredit::Debit),
        accounts@[3].id == ONCHAIN_FEE_ID && accounts@[3].code@ == ONCHAIN_FEE_CODE@
            && accounts@[3].name@ == ONCHAIN_FEE_CODE@
            && accounts@[3].description@ == "Account for provisioning of onchain fees"@
            && accounts@[3].normal_balance_type == None::<DebitOrCredit>,
        accounts@[4].id == EFFECTIVE_INCOMING_ID && accounts@[4].code@ == EFFECTIVE_INCOMING_CODE@
            && accounts@[4].name@ == EFFECTIVE_INCOMING_CODE@
            && accounts@[4].description@ == "Account for effective incoming unconfirmed funds"@
            && accounts@[4].normal_balance_type == Some(DebitOrCredit::Debit),
        accounts@[5].id == EFFECTIVE_AT_REST_ID && accounts@[5].code@ == EFFECTIVE_AT_REST_CODE@
            && accounts@[5].name@ == EFFECTIVE_AT_REST_CODE@
            && accounts@[5].description@ == "Account for settlement of effective funds"@
            && accounts@[5].normal_balance_type == Some(DebitOrCredit::Debit),
        accounts@[6].id == EFFECTIVE_OUTGOING_ID && accounts@[6].code@ == EFFECTIVE_OUTGOING_CODE@
            && accounts@[6].name@ == EFFECTIVE_OUTGOING_CODE@
            && accounts@[6].description@ == "Account for outgoing effective funds"@
            && accounts@[6].normal_balance_type == Some(DebitOrCredit::Debit),
{
    let mut accounts = Vec::new();
    accounts.push(omnibus_account(ONCHAIN_UTXO_INCOMING_CODE, ONCHAIN_UTXO_INCOMING_ID,
        "Account for onchain incoming unconfirmed funds", Some(DebitOrCredit::Debit)));
    accounts.push(omnibus_account(ONCHAIN_UTXO_AT_REST_CODE, ONCHAIN_UTXO_AT_REST_ID,
        "Account for settlement of onchain funds", Some(DebitOrCredit::Debit)));
    accounts.push(omnibus_account(ONCHAIN_UTXO_OUTGOING_CODE, ONCHAIN_UTXO_OUTGOING_ID,
        "Account for outgoing onchain funds", Some(DebitOrCredit::Debit)));
    accounts.push(omnibus_account(ONCHAIN_FEE_CODE, ONCHAIN_FEE_ID,
        "Account for provisioning of onchain fees", None));
    accounts.push(omnibus_account(EFFECTIVE_INCOMING_CODE, EFFECTIVE_INCOMING_ID,
        "Account for effective incoming unconfirmed funds", Some(DebitOrCredit::Debit)));
    accounts.push(omnibus_account(EFFECTIVE_AT_REST_CODE, EFFECTIVE_AT_REST_ID,
        "Account for settlement of effective funds", Some(DebitOrCredit::Debit)));
    accounts.push(omnibus_account(EFFECTIVE_OUTGOING_CODE, EFFECTIVE_OUTGOING_ID,
        "Account for outgoing effective funds", Some(DebitOrCredit::Debit)));
    accounts
}

/// What creating an omnibus account came to: an account that exists
/// already is no error, and is the account with the id it was created
/// under.
pub fn omnibus_account_created(
    result: Result<LedgerAccountId, CreateError>,
    id: LedgerAccountId,
) -> (r: Result<LedgerAccountId, LedgerError>)
    ensures
        r == match result {
            Ok(created) => Ok(created),
            Err(CreateError::DuplicateKey) => Ok(id),
            Err(CreateError::Other) => Err(LedgerError::SqlxLedger),
        },
{
    match result {
        Ok(created) => Ok(created),
        Err(CreateError::DuplicateKey) => Ok(id),
        Err(CreateError::Other) => Err(LedgerError::SqlxLedger),
    }
}

/// The description of an account's journal.
pub fn journal_description(account_name: &str) -> (d: String)
    ensures
        d@ == "Journal for account '"@ + account_name@ + "'"@,
{
    let mut d = String::new();
    d.append("Journal for account '");
    d.append(account_name);
    d.append("'");
    d
}

} // verus!
