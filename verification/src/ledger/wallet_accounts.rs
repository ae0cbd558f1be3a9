//! The eight ledger accounts of a wallet and the ids they get.
//!
//! A wallet's account ids are UUIDs whose text spells out the account's
//! element, sub-group and category, and ends in the first twelve hex digits of
//! the wallet's own id.
use vstd::prelude::*;
use vstd::arithmetic::div_mod::*;
use vstd::string::*;

use vstd::std_specs::convert::FromSpecImpl;

use super::constants::{
    category_code, element_code, sub_group_code, Category, Element, SubGroup, CURRENCY_CODE,
    EFFECTIVE_AT_REST_ID, EFFECTIVE_INCOMING_ID, EFFECTIVE_OUTGOING_ID, HOT_WALLET_CODE,
    ONCHAIN_FEE_ID, ONCHAIN_UTXO_AT_REST_ID, ONCHAIN_UTXO_INCOMING_ID, ONCHAIN_UTXO_OUTGOING_ID,
    RESERVED,
};
use crate::primitives::{LedgerAccountId, WalletId};
use crate::uuid_text::{
    hex_char, hex_digits, is_uuid_text, lemma_hex_digits_mod, lemma_pow16_values,
    lemma_uuid_leading_digits, lemma_uuid_text_injective, pow16, lemma_uuid_text_shape, strip_hyphens,
    strip_hyphens_of, uuid_hyphenated, uuid_parse, uuid_to_string,
};

verus! {

/// The ids of a wallet's ledger accounts.
#[derive(Clone, Copy, Debug)]
pub struct WalletLedgerAccountIds {
    pub onchain_incoming_id: LedgerAccountId,
    pub onchain_at_rest_id: LedgerAccountId,
    pub onchain_outgoing_id: LedgerAccountId,
    pub effective_incoming_id: LedgerAccountId,
    pub effective_at_rest_id: LedgerAccountId,
    pub effective_outgoing_id: LedgerAccountId,
    pub fee_id: LedgerAccountId,
    pub dust_id: LedgerAccountId,
}

pub open spec fn element_digit(e: Element) -> nat {
    match e {
        Element::Asset => 1,
        Element::Liability => 2,
        Element::Revenue => 4,
        Element::Expense => 6,
    }
}

pub open spec fn sub_group_bits(g: SubGroup) -> nat {
    match g {
        SubGroup::AtRest => 0x00,
        SubGroup::Incoming => 0x10,
        SubGroup::Outgoing => 0x20,
    }
}

pub open spec fn category_bits(c: Category) -> nat {
    match c {
        Category::Onchain => 0x1000,
        Category::Effective => 0x2000,
        Category::Fee => 0x3000,
        Category::Dust => 0x0000,
    }
}

/// The top 48 bits of a wallet id: its first twelve hex digits.
pub open spec fn wallet_suffix(w: u128) -> nat {
    (w as nat) / 0x1_0000_0000_0000_0000_0000
}

/// The id of a wallet's account of the given element, sub-group and category.
pub open spec fn ledger_account_uuid(e: Element, g: SubGroup, c: Category, w: u128) -> u128 {
    ((element_digit(e) * 0x1000 + sub_group_bits(g)) * 0x1_0000_0000_0000_0000_0000
        + category_bits(c) * 0x1_0000_0000_0000 + wallet_suffix(w)) as u128
}

/// The text of an account code: `00000000-{element}0{sub group}-0000-{category}-{suffix}`.
pub open spec fn wallet_account_code(e: Element, g: SubGroup, c: Category, suffix: Seq<char>) -> Seq<char> {
    seq!['0', '0', '0', '0', '0', '0', '0', '0'] + seq!['-'] + element_code(e) + seq!['0']
        + sub_group_code(g) + seq!['-'] + seq!['0', '0', '0', '0'] + seq!['-'] + category_code(c)
        + seq!['-'] + suffix
}

/// The account ids that a wallet id yields.
pub open spec fn wallet_ledger_account_ids(w: u128) -> WalletLedgerAccountIds {
    WalletLedgerAccountIds {
        onchain_incoming_id: ledger_account_uuid(Element::Liability, SubGroup::Incoming, Category::Onchain, w),
        onchain_at_rest_id: ledger_account_uuid(Element::Liability, SubGroup::AtRest, Category::Onchain, w),
        onchain_outgoing_id: ledger_account_uuid(Element::Liability, SubGroup::Outgoing, Category::Onchain, w),
        effective_incoming_id: ledger_account_uuid(Element::Liability, SubGroup::Incoming, Category::Effective, w),
        effective_at_rest_id: ledger_account_uuid(Element::Liability, SubGroup::AtRest, Category::Effective, w),
        effective_outgoing_id: ledger_account_uuid(Element::Liability, SubGroup::Outgoing, Category::Effective, w),
        fee_id: ledger_account_uuid(Element::Revenue, SubGroup::AtRest, Category::Fee, w),
        dust_id: ledger_account_uuid(Element::Revenue, SubGroup::AtRest, Category::Dust, w),
    }
}

/// The wallet-id prefix that account names are made of: the last twelve
/// characters of the text of the onchain incoming account's id.
pub open spec fn wallet_id_prefix(ids: WalletLedgerAccountIds) -> Seq<char> {
    uuid_hyphenated(ids.onchain_incoming_id).subrange(24, 36)
}

proof fn lemma_hex4(b: nat)
    ensures
        hex_digits(b, 4) == seq![
            hex_char(((b / 4096) % 16) as int),
            hex_char(((b / 256) % 16) as int),
            hex_char(((b / 16) % 16) as int),
            hex_char((b % 16) as int),
        ],
{
    reveal_with_fuel(hex_digits, 5);
    lemma_div_denominator(b as int, 16, 16);
    lemma_div_denominator(b as int, 256, 16);
    assert(hex_digits(b, 4) =~= seq![
        hex_char(((b / 4096) % 16) as int),
        hex_char(((b / 256) % 16) as int),
        hex_char(((b / 16) % 16) as int),
        hex_char((b % 16) as int),
    ]);
}

proof fn lemma_group_text(e: Element, g: SubGroup)
    ensures
        hex_digits(element_digit(e) * 0x1000 + sub_group_bits(g), 4)
            == element_code(e) + seq!['0'] + sub_group_code(g),
{
    let b = element_digit(e) * 0x1000 + sub_group_bits(g);
    lemma_hex4(b);
    assert(hex_digits(b, 4) =~= element_code(e) + seq!['0'] + sub_group_code(g));
}

proof fn lemma_category_text(c: Category)
    ensures
        hex_digits(category_bits(c), 4) == category_code(c),
{
    lemma_hex4(category_bits(c));
    assert(hex_digits(category_bits(c), 4) =~= category_code(c));
}

proof fn lemma_wallet_suffix_bound(w: u128)
    ensures
        wallet_suffix(w) < 0x1_0000_0000_0000,
{
    let p12: int = 0x1_0000_0000_0000;
    let p20: int = 0x1_0000_0000_0000_0000_0000;
    let s = wallet_suffix(w) as int;
    lemma_fundamental_div_mod(w as int, p20);
    lemma_mod_pos_bound(w as int, p20);
    if s >= p12 {
        vstd::arithmetic::mul::lemma_mul_inequality(p12, s, p20);
    }
}

/// Where the parts of an account id sit in its value.
proof fn lemma_account_uuid_parts(b: int, c: int, s: int)
    requires
        0 <= b < 0x1_0000,
        0 <= c < 0x1_0000,
        0 <= s < 0x1_0000_0000_0000,
    ensures
        ({
            let v = b * 0x1_0000_0000_0000_0000_0000 + c * 0x1_0000_0000_0000 + s;
            &&& 0 <= v < 0x1_0000_0000_0000_0000_0000_0000
            &&& v / 0x1_0000_0000_0000_0000_0000_0000 == 0
            &&& v / 0x1_0000_0000_0000_0000_0000 == b
            &&& v / 0x1_0000_0000_0000_0000 == b * 0x1_0000
            &&& v / 0x1_0000_0000_0000 == b * 0x1_0000_0000 + c
            &&& v % 0x1_0000_0000_0000 == s
        }),
{
    let p12: int = 0x1_0000_0000_0000;
    let p16: int = 0x1_0000_0000_0000_0000;
    let p20: int = 0x1_0000_0000_0000_0000_0000;
    let p24: int = 0x1_0000_0000_0000_0000_0000_0000;
    let v = b * p20 + c * p12 + s;
    assert(0 <= c * p12 + s < p20) by (nonlinear_arith)
        requires 0 <= c < 0x1_0000, 0 <= s < 0x1_0000_0000_0000, p12 == 0x1_0000_0000_0000,
            p20 == 0x1_0000_0000_0000_0000_0000;
    assert(0 <= v < p24) by (nonlinear_arith)
        requires 0 <= b < 0x1_0000, 0 <= c * p12 + s < p20, v == b * p20 + c * p12 + s,
            p20 == 0x1_0000_0000_0000_0000_0000, p24 == 0x1_0000_0000_0000_0000_0000_0000;
    lemma_fundamental_div_mod_converse(v, p24, 0, v);
    lemma_fundamental_div_mod_converse(v, p20, b, c * p12 + s);
    assert(0 <= c * p12 + s < p16) by (nonlinear_arith)
        requires 0 <= c < 0x1_0000, 0 <= s < 0x1_0000_0000_0000, p12 == 0x1_0000_0000_0000,
            p16 == 0x1_0000_0000_0000_0000;
    assert(v == (b * 0x1_0000) * p16 + (c * p12 + s)) by (nonlinear_arith)
        requires v == b * p20 + c * p12 + s, p16 == 0x1_0000_0000_0000_0000,
            p20 == 0x1_0000_0000_0000_0000_0000;
    lemma_fundamental_div_mod_converse(v, p16, b * 0x1_0000, c * p12 + s);
    assert(v == (b * 0x1_0000_0000 + c) * p12 + s) by (nonlinear_arith)
        requires v == b * p20 + c * p12 + s, p12 == 0x1_0000_0000_0000,
            p20 == 0x1_0000_0000_0000_0000_0000;
    lemma_fundamental_div_mod_converse(v, p12, b * 0x1_0000_0000 + c, s);
}

proof fn lemma_hex_zero(n: nat)
    ensures
        hex_digits(0, n) == Seq::new(n, |i: int| '0'),
    decreases n,
{
    if n > 0 {
        lemma_hex_zero((n - 1) as nat);
        assert(hex_digits(0, n) =~= Seq::new(n, |i: int| '0'));
    } else {
        assert(hex_digits(0, n) =~= Seq::new(n, |i: int| '0'));
    }
}

/// The code text of an account is the text of the account's id.
pub proof fn lemma_account_code_text(e: Element, g: SubGroup, c: Category, w: u128)
    ensures
        uuid_hyphenated(ledger_account_uuid(e, g, c, w))
            == wallet_account_code(e, g, c, hex_digits(wallet_suffix(w), 12)),
{
    let b = (element_digit(e) * 0x1000 + sub_group_bits(g)) as int;
    let cb = category_bits(c) as int;
    let s = wallet_suffix(w) as int;
    lemma_wallet_suffix_bound(w);
    lemma_account_uuid_parts(b, cb, s);
    let v = ledger_account_uuid(e, g, c, w);
    let x = v as nat;
    lemma_pow16_values();
    assert(x == b * 0x1_0000_0000_0000_0000_0000 + cb * 0x1_0000_0000_0000 + s);
    // group 1: all zero
    lemma_hex_zero(8);
    // group 2: element, hot wallet and sub-group digits
    lemma_group_text(e, g);
    // group 3: reserved zeros
    lemma_hex_digits_mod((b * 0x1_0000) as nat, 4);
    lemma_fundamental_div_mod_converse(b * 0x1_0000, 0x1_0000, b, 0);
    lemma_hex_zero(4);
    // group 4: category digits
    lemma_hex_digits_mod((b * 0x1_0000_0000 + cb) as nat, 4);
    lemma_fundamental_div_mod_converse(b * 0x1_0000_0000 + cb, 0x1_0000, b * 0x1_0000, cb);
    lemma_category_text(c);
    // group 5: the wallet's digits
    lemma_hex_digits_mod(x, 12);
    assert(hex_digits(x / pow16(24), 8) =~= seq!['0', '0', '0', '0', '0', '0', '0', '0']);
    assert(hex_digits(x / pow16(16), 4) =~= seq!['0', '0', '0', '0']);
    assert(uuid_hyphenated(v) =~= wallet_account_code(e, g, c, hex_digits(wallet_suffix(w), 12)));
}

/// Builds the text of an account code from its parts and the wallet's suffix.
pub fn derive_wallet_ledger_account_code(
    element: Element,
    sub_group: SubGroup,
    category: Category,
    suffix: &str,
) -> (code: String)
    ensures
        code@ == wallet_account_code(element, sub_group, category, suffix@),
{
    proof {
        reveal_strlit("00000000");
        reveal_strlit("0");
        reveal_strlit("0000");
        reveal_strlit("-");
    }
    let mut code = String::new();
    code.append(CURRENCY_CODE);
    code.append("-");
    code.append(element.code());
    code.append(HOT_WALLET_CODE);
    code.append(sub_group.code());
    code.append("-");
    code.append(RESERVED);
    code.append("-");
    code.append(category.code());
    code.append("-");
    code.append(suffix);
    assert(code@ =~= wallet_account_code(element, sub_group, category, suffix@));
    code
}

/// Parses the code of one of a wallet's accounts into the account's id.
fn wallet_ledger_account_id(
    element: Element,
    sub_group: SubGroup,
    category: Category,
    suffix: &str,
    Ghost(wallet_id): Ghost<WalletId>,
) -> (id: LedgerAccountId)
    requires
        suffix@ == hex_digits(wallet_suffix(wallet_id), 12),
    ensures
        id == ledger_account_uuid(element, sub_group, category, wallet_id),
{
    let code = derive_wallet_ledger_account_code(element, sub_group, category, suffix);
    proof {
        lemma_account_code_text(element, sub_group, category, wallet_id);
        assert(is_uuid_text(code@));
    }
    let parsed = uuid_parse(code.as_str());
    proof {
        lemma_uuid_text_injective(parsed->Ok_0, ledger_account_uuid(element, sub_group, category, wallet_id));
    }
    parsed.expect("Invalid Wallet Id")
}

impl WalletLedgerAccountIds {
    /// The last twelve characters of the text of the onchain incoming
    /// account's id, which name the wallet in account names and codes.
    pub fn get_wallet_id_prefix(&self) -> (prefix: String)
        ensures
            prefix@ == wallet_id_prefix(*self),
    {
        let uuid_string = uuid_to_string(self.onchain_incoming_id);
        proof {
            lemma_uuid_text_shape(self.onchain_incoming_id);
        }
        let n = uuid_string.as_str().unicode_len();
        let suffix = uuid_string.as_str().substring_char(24, n);
        suffix.to_owned()
    }
}

impl Default for WalletLedgerAccountIds {
    /// The omnibus accounts.
    fn default() -> (ids: Self)
        ensures
            ids.onchain_incoming_id == ONCHAIN_UTXO_INCOMING_ID,
            ids.onchain_at_rest_id == ONCHAIN_UTXO_AT_REST_ID,
            ids.onchain_outgoing_id == ONCHAIN_UTXO_OUTGOING_ID,
            ids.effective_incoming_id == EFFECTIVE_INCOMING_ID,
            ids.effective_at_rest_id == EFFECTIVE_AT_REST_ID,
            ids.effective_outgoing_id == EFFECTIVE_OUTGOING_ID,
            ids.fee_id == ONCHAIN_FEE_ID,
            ids.dust_id == 0,
    {
        Self {
            onchain_incoming_id: ONCHAIN_UTXO_INCOMING_ID,
            onchain_at_rest_id: ONCHAIN_UTXO_AT_REST_ID,
            onchain_outgoing_id: ONCHAIN_UTXO_OUTGOING_ID,
            effective_incoming_id: EFFECTIVE_INCOMING_ID,
            effective_at_rest_id: EFFECTIVE_AT_REST_ID,
            effective_outgoing_id: EFFECTIVE_OUTGOING_ID,
            fee_id: ONCHAIN_FEE_ID,
            dust_id: 0,
        }
    }
}

impl From<WalletId> for WalletLedgerAccountIds {
    /// The accounts of a wallet: each id's text is the account's code, ending
    /// in the first twelve hex digits of the wallet id.
    fn from(wallet_id: WalletId) -> (ids: Self) {
        let wallet_id_str = uuid_to_string(wallet_id);
        let wallet_id_without_hyphens = strip_hyphens_of(wallet_id_str.as_str());
        proof {
            lemma_uuid_leading_digits(wallet_id);
        }
        proof {
            lemma_pow16_values();
        }
        let suffix = wallet_id_without_hyphens.as_str().substring_char(0, 12);
        let g = Ghost(wallet_id);
        let onchain_incoming_id = wallet_ledger_account_id(
            Element::Liability, SubGroup::Incoming, Category::Onchain, suffix, g);
        let onchain_at_rest_id = wallet_ledger_account_id(
            Element::Liability, SubGroup::AtRest, Category::Onchain, suffix, g);
        let onchain_outgoing_id = wallet_ledger_account_id(
            Element::Liability, SubGroup::Outgoing, Category::Onchain, suffix, g);
        let effective_incoming_id = wallet_ledger_account_id(
            Element::Liability, SubGroup::Incoming, Category::Effective, suffix, g);
        let effective_at_rest_id = wallet_ledger_account_id(
            Element::Liability, SubGroup::AtRest, Category::Effective, suffix, g);
        let effective_outgoing_id = wallet_ledger_account_id(
            Element::Liability, SubGroup::Outgoing, Category::Effective, suffix, g);
        let fee_id = wallet_ledger_account_id(
            Element::Revenue, SubGroup::AtRest, Category::Fee, suffix, g);
        let dust_id = wallet_ledger_account_id(
            Element::Revenue, SubGroup::AtRest, Category::Dust, suffix, g);
        Self {
            onchain_incoming_id,
            onchain_at_rest_id,
            onchain_outgoing_id,
            effective_incoming_id,
            effective_at_rest_id,
            effective_outgoing_id,
            fee_id,
            dust_id,
        }
    }
}

impl FromSpecImpl<WalletId> for WalletLedgerAccountIds {
    open spec fn obeys_from_spec() -> bool {
        true
    }

    open spec fn from_spec(v: WalletId) -> Self {
        wallet_ledger_account_ids(v)
    }
}

/// The wallet-id prefix of a wallet's accounts is the first twelve hex digits
/// of the wallet's id, as the wallet id's text shows them with its hyphen
/// taken out.
pub proof fn lemma_wallet_id_prefix_of_wallet(w: WalletId)
    ensures
        wallet_id_prefix(wallet_ledger_account_ids(w)) == strip_hyphens(uuid_hyphenated(w)).take(12),
{
    let id = ledger_account_uuid(Element::Liability, SubGroup::Incoming, Category::Onchain, w);
    let s = wallet_suffix(w) as int;
    lemma_wallet_suffix_bound(w);
    lemma_account_uuid_parts(0x2010, 0x1000, s);
    lemma_uuid_text_shape(id);
    lemma_hex_digits_mod(id as nat, 12);
    lemma_pow16_values();
    lemma_uuid_leading_digits(w);
    assert(wallet_id_prefix(wallet_ledger_account_ids(w)) =~= strip_hyphens(uuid_hyphenated(w)).take(12));
}

/// The eight accounts of a wallet are eight different accounts, and each of
/// them carries the wallet's first twelve hex digits in its low 48 bits.
pub proof fn lemma_wallet_accounts_distinct(w: WalletId)
    ensures
        ({
            let ids = wallet_ledger_account_ids(w);
            let s = seq![
                ids.onchain_incoming_id, ids.onchain_at_rest_id, ids.onchain_outgoing_id,
                ids.effective_incoming_id, ids.effective_at_rest_id, ids.effective_outgoing_id,
                ids.fee_id, ids.dust_id,
            ];
            &&& forall|i: int, j: int| 0 <= i < j < 8 ==> s[i] != s[j]
            &&& forall|i: int| 0 <= i < 8 ==> (s[i] as nat) % 0x1_0000_0000_0000 == wallet_suffix(w)
        }),
{
    let p12: int = 0x1_0000_0000_0000;
    let p20: int = 0x1_0000_0000_0000_0000_0000;
    let s = wallet_suffix(w) as int;
    lemma_wallet_suffix_bound(w);
    assert forall|e: Element, g: SubGroup, c: Category|
        #![trigger ledger_account_uuid(e, g, c, w)]
        (ledger_account_uuid(e, g, c, w) as nat) % 0x1_0000_0000_0000 == wallet_suffix(w)
            && (ledger_account_uuid(e, g, c, w) as nat) / 0x1_0000_0000_0000
                == (element_digit(e) * 0x1000 + sub_group_bits(g)) * 0x1_0000_0000 + category_bits(c)
    by {
        let b = (element_digit(e) * 0x1000 + sub_group_bits(g)) as int;
        lemma_fundamental_div_mod_converse(
            b * p20 + category_bits(c) * p12 + s,
            p12,
            b * 0x1_0000_0000 + category_bits(c),
            s,
        );
    }
    let ids = wallet_ledger_account_ids(w);
    let q = seq![
        ids.onchain_incoming_id, ids.onchain_at_rest_id, ids.onchain_outgoing_id,
        ids.effective_incoming_id, ids.effective_at_rest_id, ids.effective_outgoing_id,
        ids.fee_id, ids.dust_id,
    ];
    assert forall|i: int| 0 <= i < 8 implies (q[i] as nat) % 0x1_0000_0000_0000 == wallet_suffix(w) by {
    }
}

} // verus!
