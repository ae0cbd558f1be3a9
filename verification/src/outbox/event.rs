//! Events of the outbox and their sequence numbers.
use vstd::prelude::*;
use vstd::std_specs::convert::FromSpecImpl;

use crate::ledger::event::JournalEventMetadata;
use crate::ledger::templates::shared_meta::PayoutDestination;
use crate::primitives::{
    AccountId, BlockTime, KeychainId, LedgerTransactionId, OutboxEventId, PayoutId, Satoshis,
    SqlxLedgerEventId, Txid, WalletId,
};

verus! {

/// The position of an event in an account's stream; the first event is 1.
#[derive(PartialEq, Eq, Structural, PartialOrd, Ord, Hash, Debug, Copy, Clone)]
pub struct EventSequence(i64);

impl View for EventSequence {
    type V = int;

    closed spec fn view(&self) -> int {
        self.0 as int
    }
}

impl EventSequence {
    /// The position before the first event.
    pub fn begin() -> (s: Self)
        ensures
            s@ == 0,
    {
        EventSequence(0)
    }

    /// The position after this one.
    pub fn next(&self) -> (s: Self)
        requires
            self@ < i64::MAX,
        ensures
            s@ == self@ + 1,
    {
        EventSequence(self.0 + 1)
    }

    /// The position as a number.
    pub fn value(&self) -> (v: i64)
        ensures
            v == self@,
    {
        self.0
    }
}

impl From<u64> for EventSequence {
    fn from(n: u64) -> (s: Self)
        ensures
            s@ == n as i64,
    {
        EventSequence(n as i64)
    }
}

impl FromSpecImpl<u64> for EventSequence {
    open spec fn obeys_from_spec() -> bool {
        true
    }

    closed spec fn from_spec(n: u64) -> Self {
        EventSequence(n as i64)
    }
}

impl From<EventSequence> for u64 {
    fn from(s: EventSequence) -> (n: u64)
        ensures
            n == s@ as u64,
    {
        s.0 as u64
    }
}

impl FromSpecImpl<EventSequence> for u64 {
    open spec fn obeys_from_spec() -> bool {
        true
    }

    closed spec fn from_spec(s: EventSequence) -> u64 {
        s.0 as u64
    }
}

/// A number that fits in a sequence comes back unchanged from one.
pub proof fn lemma_sequence_number_round_trip(n: u64)
    requires
        n <= i64::MAX,
    ensures
        (n as i64) as u64 == n,
        (n as i64) as int == n as int,
{
}

/// What an outbox event tells the account's listeners.
#[derive(Clone, Debug)]
pub enum OutboxEventPayload {
    UtxoDetected {
        tx_id: Txid,
        vout: u32,
        satoshis: Satoshis,
        address: String,
        wallet_id: WalletId,
        keychain_id: KeychainId,
    },
    UtxoSettled {
        tx_id: Txid,
        vout: u32,
        satoshis: Satoshis,
        address: String,
        wallet_id: WalletId,
        keychain_id: KeychainId,
        confirmation_time: BlockTime,
    },
    PayoutQueued { id: PayoutId, wallet_id: WalletId, satoshis: Satoshis, destination: PayoutDestination },
}

/// The payload that a journal event gives the outbox, if any: detected and
/// settled UTXOs, and submitted payouts.
pub open spec fn payload_for(meta: JournalEventMetadata) -> Option<OutboxEventPayload> {
    match meta {
        JournalEventMetadata::UtxoDetected(m, _) => Some(
            OutboxEventPayload::UtxoDetected {
                tx_id: m.outpoint.txid,
                vout: m.outpoint.vout,
                satoshis: m.satoshis,
                address: m.address,
                wallet_id: m.wallet_id,
                keychain_id: m.keychain_id,
            },
        ),
        JournalEventMetadata::UtxoSettled(m) => Some(
            OutboxEventPayload::UtxoSettled {
                tx_id: m.outpoint.txid,
                vout: m.outpoint.vout,
                satoshis: m.satoshis,
                address: m.address,
                wallet_id: m.wallet_id,
                keychain_id: m.keychain_id,
                confirmation_time: m.confirmation_time,
            },
        ),
        JournalEventMetadata::PayoutSubmitted(m) => Some(
            OutboxEventPayload::PayoutQueued {
                id: m.payout_id,
                wallet_id: m.wallet_id,
                satoshis: m.satoshis,
                destination: m.destination,
            },
        ),
        JournalEventMetadata::Other(_, _) => None,
    }
}

/// What the payload of a journal event carries, field by field against what
/// the journal recorded: a detected or settled UTXO is reported with its own
/// outpoint, amount, address, wallet and keychain (and, once settled, its
/// confirmation time); a submitted payout is queued with its id, wallet,
/// amount and destination; other events give no payload.
pub open spec fn carries_journal_record(meta: JournalEventMetadata, p: Option<OutboxEventPayload>) -> bool {
    match meta {
        JournalEventMetadata::UtxoDetected(m, _) => p matches Some(
            OutboxEventPayload::UtxoDetected { tx_id, vout, satoshis, address, wallet_id, keychain_id },
        ) && tx_id == m.outpoint.txid && vout == m.outpoint.vout && satoshis == m.satoshis && address == m.address
            && wallet_id == m.wallet_id && keychain_id == m.keychain_id,
        JournalEventMetadata::UtxoSettled(m) => p matches Some(
            OutboxEventPayload::UtxoSettled { tx_id, vout, satoshis, address, wallet_id, keychain_id, confirmation_time },
        ) && tx_id == m.outpoint.txid && vout == m.outpoint.vout && satoshis == m.satoshis && address == m.address
            && wallet_id == m.wallet_id && keychain_id == m.keychain_id && confirmation_time == m.confirmation_time,
        JournalEventMetadata::PayoutSubmitted(m) => p matches Some(
            OutboxEventPayload::PayoutQueued { id, wallet_id, satoshis, destination },
        ) && id == m.payout_id && wallet_id == m.wallet_id && satoshis == m.satoshis && destination == m.destination,
        JournalEventMetadata::Other(_, _) => p is None,
    }
}

/// The payload a journal event gives carries what the journal recorded of
/// the UTXO or payout, each field from the same field of the record.
pub proof fn lemma_payload_carries_journal_record(meta: JournalEventMetadata)
    ensures
        carries_journal_record(meta, payload_for(meta)),
{
}

impl OutboxEventPayload {
    /// The payload of a journal event, if it gives one.
    pub fn try_from_metadata(meta: JournalEventMetadata) -> (p: Option<OutboxEventPayload>)
        ensures
            p == payload_for(meta),
            carries_journal_record(meta, p),
    {
        match meta {
            JournalEventMetadata::UtxoDetected(m, _) => Some(
                OutboxEventPayload::UtxoDetected {
                    tx_id: m.outpoint.txid,
                    vout: m.outpoint.vout,
                    satoshis: m.satoshis,
                    address: m.address,
                    wallet_id: m.wallet_id,
                    keychain_id: m.keychain_id,
                },
            ),
            JournalEventMetadata::UtxoSettled(m) => Some(
                OutboxEventPayload::UtxoSettled {
                    tx_id: m.outpoint.txid,
                    vout: m.outpoint.vout,
                    satoshis: m.satoshis,
                    address: m.address,
                    wallet_id: m.wallet_id,
                    keychain_id: m.keychain_id,
                    confirmation_time: m.confirmation_time,
                },
            ),
            JournalEventMetadata::PayoutSubmitted(m) => Some(
                OutboxEventPayload::PayoutQueued {
                    id: m.payout_id,
                    wallet_id: m.wallet_id,
                    satoshis: m.satoshis,
                    destination: m.destination,
                },
            ),
            JournalEventMetadata::Other(_, _) => None,
        }
    }
}

/// The payloads of a journal event: none or one.
pub fn payloads_from(meta: JournalEventMetadata) -> (v: Vec<OutboxEventPayload>)
    ensures
        v@ == (match payload_for(meta) {
            Some(p) => seq![p],
            None => Seq::<OutboxEventPayload>::empty(),
        }),
{
    let mut v = Vec::new();
    match OutboxEventPayload::try_from_metadata(meta) {
        Some(p) => {
            v.push(p);
            assert(v@ =~= seq![p]);
        },
        None => {
            assert(v@ =~= Seq::<OutboxEventPayload>::empty());
        },
    }
    v
}

/// An event of an account's outbox.
#[derive(Clone, Debug)]
pub struct OutboxEvent {
    pub id: OutboxEventId,
    pub account_id: AccountId,
    pub sequence: EventSequence,
    pub payload: OutboxEventPayload,
    pub ledger_event_id: Option<SqlxLedgerEventId>,
    pub ledger_tx_id: Option<LedgerTransactionId>,
    /// Microseconds since 1970-01-01T00:00:00Z.
    pub recorded_at: i64,
}

} // verus!
