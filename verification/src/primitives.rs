//! Identifiers and small value types shared by the whole library.
use vstd::prelude::*;

verus! {

/// Identifiers are UUIDs, held as their 128-bit big-endian value.
pub type AccountId = u128;
pub type WalletId = u128;
pub type KeychainId = u128;
pub type BatchId = u128;
pub type PayoutQueueId = u128;
pub type PayoutId = u128;
pub type ProfileId = u128;
pub type LedgerAccountId = u128;
pub type LedgerJournalId = u128;
pub type LedgerTransactionId = u128;
pub type OutboxEventId = u128;
/// Sequence number of an event in the ledger's event log.
pub type SqlxLedgerEventId = i64;

/// An amount of bitcoin in satoshis; signed, as differences of amounts are.
pub type Satoshis = i64;

pub const SATS_PER_BTC: i64 = 100_000_000;

/// A bitcoin transaction id: its 32 bytes as two big-endian halves.
#[derive(Clone, Copy, Debug, PartialEq, Eq, Structural)]
pub struct Txid {
    pub hi: u128,
    pub lo: u128,
}

/// A transaction output: the transaction and the output's index in it.
#[derive(Clone, Copy, Debug, PartialEq, Eq, Structural)]
pub struct OutPoint {
    pub txid: Txid,
    pub vout: u32,
}

/// When and where a transaction was confirmed.
#[derive(Clone, Copy, Debug, PartialEq, Eq, Structural)]
pub struct BlockTime {
    pub height: u32,
    pub timestamp: u64,
}

/// Which chain of a wallet's descriptor an address comes from.
#[derive(Clone, Copy, Debug, PartialEq, Eq, Structural)]
pub enum KeychainKind {
    External,
    Internal,
}

/// How soon a transaction should confirm.
#[derive(Clone, Copy, Debug, PartialEq, Eq, Structural)]
pub enum TxPriority {
    NextBlock,
    HalfHour,
    OneHour,
}

pub open spec fn spec_n_blocks(p: TxPriority) -> u16 {
    match p {
        TxPriority::NextBlock => 1,
        TxPriority::HalfHour => 3,
        TxPriority::OneHour => 6,
    }
}

impl TxPriority {
    /// The confirmation target in blocks.
    pub fn n_blocks(&self) -> (n: u16)
        ensures
            n == spec_n_blocks(*self),
            *self == TxPriority::NextBlock ==> n == 1,
            *self == TxPriority::HalfHour ==> n == 3,
            *self == TxPriority::OneHour ==> n == 6,
    {
        match self {
            TxPriority::NextBlock => 1,
            TxPriority::HalfHour => 3,
            TxPriority::OneHour => 6,
        }
    }
}

} // verus!
