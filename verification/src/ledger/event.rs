//! What the ledger's event stream reports of a journal: the kind of each
//! transaction posted to it, by the template it was posted with.
use vstd::prelude::*;

use super::constants::{
    BATCH_BROADCAST_ID, BATCH_CREATED_ID, PAYOUT_CANCELLED_ID, PAYOUT_SUBMITTED_ID,
    SPENT_UTXO_SETTLED_ID, SPEND_DETECTED_ID, SPEND_SETTLED_ID, UTXO_DETECTED_ID, UTXO_DROPPED_ID,
    UTXO_SETTLED_ID,
};
use super::error::LedgerError;
use super::templates::shared_meta::PayoutDestination;
use crate::primitives::{
    AccountId, BlockTime, KeychainId, LedgerJournalId, LedgerTransactionId, OutPoint, PayoutId,
    PayoutQueueId, ProfileId, Satoshis, SqlxLedgerEventId, WalletId,
};

verus! {

/// The kind of a posted transaction, as its template tells it.
#[derive(Clone, Copy, Debug, PartialEq, Eq, Structural)]
pub enum JournalEventKind {
    UtxoDetected,
    UtxoSettled,
    UtxoDropped,
    SpendDetected,
    SpendSettled,
    PayoutSubmitted,
    PayoutCancelled,
    BatchCreated,
    BatchBroadcast,
    UnknownTransaction,
}

/// The kind of a transaction posted with the given template; both settlement
/// templates report a settled UTXO.
pub open spec fn kind_of_template(template_id: u128) -> JournalEventKind {
    if template_id == UTXO_DETECTED_ID {
        JournalEventKind::UtxoDetected
    } else if template_id == UTXO_SETTLED_ID || template_id == SPENT_UTXO_SETTLED_ID {
        JournalEventKind::UtxoSettled
    } else if template_id == UTXO_DROPPED_ID {
        JournalEventKind::UtxoDropped
    } else if template_id == SPEND_DETECTED_ID {
        JournalEventKind::SpendDetected
    } else if template_id == SPEND_SETTLED_ID {
        JournalEventKind::SpendSettled
    } else if template_id == PAYOUT_SUBMITTED_ID {
        JournalEventKind::PayoutSubmitted
    } else if template_id == PAYOUT_CANCELLED_ID {
        JournalEventKind::PayoutCancelled
    } else if template_id == BATCH_CREATED_ID {
        JournalEventKind::BatchCreated
    } else if template_id == BATCH_BROADCAST_ID {
        JournalEventKind::BatchBroadcast
    } else {
        JournalEventKind::UnknownTransaction
    }
}

/// The kind of a transaction posted with the given template.
pub fn journal_event_kind(template_id: u128) -> (kind: JournalEventKind)
    ensures
        kind == kind_of_template(template_id),
{
    if template_id == UTXO_DETECTED_ID {
        JournalEventKind::UtxoDetected
    } else if template_id == UTXO_SETTLED_ID || template_id == SPENT_UTXO_SETTLED_ID {
        JournalEventKind::UtxoSettled
    } else if template_id == UTXO_DROPPED_ID {
        JournalEventKind::UtxoDropped
    } else if template_id == SPEND_DETECTED_ID {
        JournalEventKind::SpendDetected
    } else if template_id == SPEND_SETTLED_ID {
        JournalEventKind::SpendSettled
    } else if template_id == PAYOUT_SUBMITTED_ID {
        JournalEventKind::PayoutSubmitted
    } else if template_id == PAYOUT_CANCELLED_ID {
        JournalEventKind::PayoutCancelled
    } else if template_id == BATCH_CREATED_ID {
        JournalEventKind::BatchCreated
    } else if template_id == BATCH_BROADCAST_ID {
        JournalEventKind::BatchBroadcast
    } else {
        JournalEventKind::UnknownTransaction
    }
}

/// What reading a posted transaction's metadata as the kind its template
/// names gave.
#[derive(Clone, Copy, Debug, PartialEq, Eq, Structural)]
pub enum MetadataState {
    /// The metadata is there and reads as that kind.
    Present,
    /// The transaction carries no metadata.
    Missing,
    /// The metadata is there but does not read as that kind.
    Undecodable,
}

/// One event of the ledger's stream, as far as the journal's reader needs it.
#[derive(Clone, Copy, Debug)]
pub enum LedgerEventData {
    /// A transaction was posted with the given template; `metadata` says what
    /// reading its metadata gave.
    TransactionCreated { tx_id: LedgerTransactionId, template_id: u128, metadata: MetadataState },
    /// Anything else the ledger reports (balances, accounts).
    Other,
}

/// A ledger event, kept or skipped by the journal's reader.
#[derive(Clone, Copy, Debug, PartialEq, Eq, Structural)]
pub enum MaybeIgnored {
    Ignored,
    Event { ledger_tx_id: LedgerTransactionId, kind: JournalEventKind },
}

/// How the journal's reader takes a ledger event: events other than posted
/// transactions are skipped; a transaction of a known kind must carry
/// metadata that reads as that kind (metadata that does not read is a decode
/// error, none at all is missing metadata); one of an unknown kind is kept
/// whatever its metadata.
pub open spec fn classified(data: LedgerEventData) -> Result<MaybeIgnored, LedgerError> {
    match data {
        LedgerEventData::Other => Ok(MaybeIgnored::Ignored),
        LedgerEventData::TransactionCreated { tx_id, template_id, metadata } => {
            let kind = kind_of_template(template_id);
            if kind == JournalEventKind::UnknownTransaction {
                Ok(MaybeIgnored::Event { ledger_tx_id: tx_id, kind })
            } else {
                match metadata {
                    MetadataState::Undecodable => Err(LedgerError::SerdeJson),
                    MetadataState::Missing => Err(LedgerError::MissingTxMetadata),
                    MetadataState::Present => Ok(MaybeIgnored::Event { ledger_tx_id: tx_id, kind }),
                }
            }
        },
    }
}

impl MaybeIgnored {
    /// Classifies a ledger event for the journal's reader.
    pub fn try_from_event(data: LedgerEventData) -> (r: Result<MaybeIgnored, LedgerError>)
        ensures
            r == classified(data),
    {
        match data {
            LedgerEventData::Other => Ok(MaybeIgnored::Ignored),
            LedgerEventData::TransactionCreated { tx_id, template_id, metadata } => {
                let kind = journal_event_kind(template_id);
                match kind {
                    JournalEventKind::UnknownTransaction => Ok(MaybeIgnored::Event { ledger_tx_id: tx_id, kind }),
                    _ => match metadata {
                        MetadataState::Undecodable => Err(LedgerError::SerdeJson),
                        MetadataState::Missing => Err(LedgerError::MissingTxMetadata),
                        MetadataState::Present => Ok(MaybeIgnored::Event { ledger_tx_id: tx_id, kind }),
                    },
                }
            },
        }
    }
}

/// What a settled UTXO's posting records.
#[derive(Clone, Debug)]
pub struct UtxoSettledMeta {
    pub account_id: AccountId,
    pub wallet_id: WalletId,
    pub keychain_id: KeychainId,
    pub confirmation_time: BlockTime,
    pub satoshis: Satoshis,
    pub outpoint: OutPoint,
    pub address: String,
    /// The detection of the spend of this UTXO, if it was spent before it
    /// settled.
    pub already_spent_tx_id: Option<LedgerTransactionId>,
}

/// What a submitted payout's posting records.
#[derive(Clone, Debug)]
pub struct PayoutSubmittedMeta {
    pub payout_id: PayoutId,
    pub account_id: AccountId,
    pub wallet_id: WalletId,
    pub profile_id: ProfileId,
    pub payout_queue_id: PayoutQueueId,
    pub satoshis: Satoshis,
    pub destination: PayoutDestination,
}

/// A posted transaction of a journal, with what the outbox reads of its
/// metadata; metadata of other kinds is carried through as its JSON text.
#[derive(Clone, Debug)]
pub enum JournalEventMetadata {
    UtxoDetected(super::templates::utxo_detected::UtxoDetectedMeta, SqlxLedgerEventId),
    UtxoSettled(UtxoSettledMeta),
    PayoutSubmitted(PayoutSubmittedMeta),
    Other(JournalEventKind, Option<String>),
}

/// A journal's event: a transaction posted to it.
#[derive(Clone, Debug)]
pub struct JournalEvent {
    pub journal_id: LedgerJournalId,
    pub account_id: AccountId,
    pub ledger_tx_id: LedgerTransactionId,
    pub ledger_event_id: SqlxLedgerEventId,
    /// Microseconds since 1970-01-01T00:00:00Z.
    pub recorded_at: i64,
    pub metadata: JournalEventMetadata,
}

impl JournalEvent {
    /// The event of a transaction posted to a journal; the journal belongs to
    /// the account with the same id.
    pub fn new(
        journal_id: LedgerJournalId,
        ledger_tx_id: LedgerTransactionId,
        ledger_event_id: SqlxLedgerEventId,
        recorded_at: i64,
        metadata: JournalEventMetadata,
    ) -> (e: JournalEvent)
        ensures
            e.journal_id == journal_id,
            e.account_id == journal_id,
            e.ledger_tx_id == ledger_tx_id,
            e.ledger_event_id == ledger_event_id,
            e.recorded_at == recorded_at,
            e.metadata == metadata,
    {
        JournalEvent { journal_id, account_id: journal_id, ledger_tx_id, ledger_event_id, recorded_at, metadata }
    }
}

} // verus!
