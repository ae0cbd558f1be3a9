//! Codes and ids of the ledger's transaction templates and omnibus accounts,
//! and the pieces that account codes are made of.
use vstd::prelude::*;

verus! {

// Transaction template codes and ids
pub const UTXO_DETECTED_CODE: &'static str = "UTXO_DETECTED";
pub const UTXO_DETECTED_ID: u128 = 0x00000000_0000_0000_0000_000000000001;
pub const UTXO_SETTLED_CODE: &'static str = "UTXO_SETTLED";
pub const UTXO_SETTLED_ID: u128 = 0x00000000_0000_0000_0000_000000000002;
pub const UTXO_DROPPED_CODE: &'static str = "UTXO_DROPPED";
pub const UTXO_DROPPED_ID: u128 = 0x00000000_0000_0000_0000_000000000009;
pub const SPENT_UTXO_SETTLED_CODE: &'static str = "SPENT_UTXO_SETTLED";
pub const SPENT_UTXO_SETTLED_ID: u128 = 0x00000000_0000_0000_0000_000000000003;
pub const SPEND_DETECTED_CODE: &'static str = "SPEND_DETECTED";
pub const SPEND_DETECTED_ID: u128 = 0x00000000_0000_0000_0000_000000000004;
pub const SPEND_SETTLED_CODE: &'static str = "SPEND_SETTLED";
pub const SPEND_SETTLED_ID: u128 = 0x00000000_0000_0000_0000_000000000005;
pub const PAYOUT_SUBMITTED_CODE: &'static str = "PAYOUT_SUBMITTED";
pub const PAYOUT_SUBMITTED_ID: u128 = 0x00000000_0000_0000_0000_000000000006;
pub const PAYOUT_CANCELLED_CODE: &'static str = "PAYOUT_CANCELLED";
pub const PAYOUT_CANCELLED_ID: u128 = 0x00000000_0000_0000_0000_000000000010;
pub const BATCH_CREATED_LEGACY_CODE: &'static str = "BATCH_CREATED";
pub const BATCH_CREATED_LEGACY_ID: u128 = 0x00000000_0000_0000_0000_000000000007;
pub const FIX_BATCH_CREATED_LEGACY_CODE: &'static str = "FIX_BATCH_CREATED";
pub const FIX_BATCH_CREATED_LEGACY_ID: u128 = 0x00000000_0000_0000_0000_100000000007;
pub const BATCH_CREATED_CODE: &'static str = "BATCH_CREATED_V2";
pub const BATCH_CREATED_ID: u128 = 0x10000000_0000_0000_0000_000000000007;
pub const BATCH_BROADCAST_CODE: &'static str = "BATCH_BROADCAST";
pub const BATCH_BROADCAST_ID: u128 = 0x00000000_0000_0000_0000_000000000008;
pub const BATCH_DROPPED_CODE: &'static str = "BATCH_DROPPED";
pub const BATCH_DROPPED_ID: u128 = 0x00000000_0000_0000_0000_000000000011;

// Onchain / omnibus ledger accounts
pub const ONCHAIN_UTXO_INCOMING_CODE: &'static str = "ONCHAIN_UTXO_INCOMING";
pub const ONCHAIN_UTXO_INCOMING_ID: u128 = 0x00000000_1910_0000_1000_000000000000;
pub const ONCHAIN_UTXO_AT_REST_CODE: &'static str = "ONCHAIN_UTXO_AT_REST";
pub const ONCHAIN_UTXO_AT_REST_ID: u128 = 0x00000000_1900_0000_1000_000000000000;
pub const ONCHAIN_UTXO_OUTGOING_CODE: &'static str = "ONCHAIN_UTXO_OUTGOING";
pub const ONCHAIN_UTXO_OUTGOING_ID: u128 = 0x00000000_1920_0000_1000_000000000000;
pub const ONCHAIN_FEE_CODE: &'static str = "ONCHAIN_FEE";
pub const ONCHAIN_FEE_ID: u128 = 0x00000000_6900_0000_3000_000000000000;
pub const EFFECTIVE_INCOMING_CODE: &'static str = "EFFECTIVE_INCOMING";
pub const EFFECTIVE_INCOMING_ID: u128 = 0x00000000_1910_0000_2000_000000000000;
pub const EFFECTIVE_AT_REST_CODE: &'static str = "EFFECTIVE_AT_REST";
pub const EFFECTIVE_AT_REST_ID: u128 = 0x00000000_1900_0000_2000_000000000000;
pub const EFFECTIVE_OUTGOING_CODE: &'static str = "EFFECTIVE_OUTGOING";
pub const EFFECTIVE_OUTGOING_ID: u128 = 0x00000000_1920_0000_2000_000000000000;

pub const CURRENCY_CODE: &'static str = "00000000";
pub const HOT_WALLET_CODE: &'static str = "0";
pub const RESERVED: &'static str = "0000";

/// Top-level class of a ledger account.
#[derive(Clone, Copy, Debug, PartialEq, Eq, Structural)]
pub enum Element {
    Asset,
    Liability,
    Revenue,
    Expense,
}

/// Stage of the funds an account holds.
#[derive(Clone, Copy, Debug, PartialEq, Eq, Structural)]
pub enum SubGroup {
    AtRest,
    Incoming,
    Outgoing,
}

/// What an account counts.
#[derive(Clone, Copy, Debug, PartialEq, Eq, Structural)]
pub enum Category {
    Onchain,
    Effective,
    Fee,
    Dust,
}

pub open spec fn element_code(e: Element) -> Seq<char> {
    match e {
        Element::Asset => seq!['1'],
        Element::Liability => seq!['2'],
        Element::Revenue => seq!['4'],
        Element::Expense => seq!['6'],
    }
}

pub open spec fn sub_group_code(g: SubGroup) -> Seq<char> {
    match g {
        SubGroup::AtRest => seq!['0', '0'],
        SubGroup::Incoming => seq!['1', '0'],
        SubGroup::Outgoing => seq!['2', '0'],
    }
}

pub open spec fn category_code(c: Category) -> Seq<char> {
    match c {
        Category::Onchain => seq!['1', '0', '0', '0'],
        Category::Effective => seq!['2', '0', '0', '0'],
        Category::Fee => seq!['3', '0', '0', '0'],
        Category::Dust => seq!['0', '0', '0', '0'],
    }
}

impl Element {
    pub fn code(&self) -> (c: &'static str)
        ensures
            c@ == element_code(*self),
    {
        match self {
            Element::Asset => {
                proof { reveal_strlit("1"); }
                "1"
            },
            Element::Liability => {
                proof { reveal_strlit("2"); }
                "2"
            },
            Element::Revenue => {
                proof { reveal_strlit("4"); }
                "4"
            },
            Element::Expense => {
                proof { reveal_strlit("6"); }
                "6"
            },
        }
    }
}

impl SubGroup {
    pub fn code(&self) -> (c: &'static str)
        ensures
            c@ == sub_group_code(*self),
    {
        match self {
            SubGroup::AtRest => {
                proof { reveal_strlit("00"); }
                "00"
            },
            SubGroup::Incoming => {
                proof { reveal_strlit("10"); }
                "10"
            },
            SubGroup::Outgoing => {
                proof { reveal_strlit("20"); }
                "20"
            },
        }
    }
}

impl Category {
    pub fn code(&self) -> (c: &'static str)
        ensures
            c@ == category_code(*self),
    {
        match self {
            Category::Onchain => {
                proof { reveal_strlit("1000"); }
                "1000"
            },
            Category::Effective => {
                proof { reveal_strlit("2000"); }
                "2000"
            },
            Category::Fee => {
                proof { reveal_strlit("3000"); }
                "3000"
            },
            Category::Dust => {
                proof { reveal_strlit("0000"); }
                "0000"
            },
        }
    }
}

} // verus!
