//! What an outbox event is augmented with before it reaches a listener:
//! events about UTXOs with what is known of their address, events about
//! payouts with the payout.
use vstd::prelude::*;

use super::event::OutboxEventPayload;
use crate::primitives::{PayoutId, WalletId};

verus! {

/// The record to look up to augment an event.
#[derive(Debug)]
pub enum AugmentationLookup {
    /// The account's address, by its text, in the given wallet.
    Address { address: String, wallet_id: WalletId },
    /// The account's payout, with its estimated inclusion in a batch.
    Payout { id: PayoutId },
}

/// Decides how outbox events are augmented; the records themselves are
/// looked up by its caller.
#[derive(Clone, Copy, Debug)]
pub struct Augmenter {}

impl Augmenter {
    pub fn new() -> (a: Augmenter) {
        Augmenter {}
    }

    /// The record that augments an event with the given payload.
    pub fn lookup_for(&self, payload: &OutboxEventPayload) -> (r: AugmentationLookup)
        ensures
            match *payload {
                OutboxEventPayload::UtxoDetected { address, wallet_id, .. }
                | OutboxEventPayload::UtxoSettled { address, wallet_id, .. } => {
                    r matches AugmentationLookup::Address { address: a, wallet_id: w } && a@ == address@
                        && w == wallet_id
                },
                OutboxEventPayload::PayoutQueued { id, .. } => r == AugmentationLookup::Payout { id },
            },
    {
        match payload {
            OutboxEventPayload::UtxoDetected { address, wallet_id, .. } => AugmentationLookup::Address {
                address: address.clone(),
                wallet_id: *wallet_id,
            },
            OutboxEventPayload::UtxoSettled { address, wallet_id, .. } => AugmentationLookup::Address {
                address: address.clone(),
                wallet_id: *wallet_id,
            },
            OutboxEventPayload::PayoutQueued { id, .. } => AugmentationLookup::Payout { id: *id },
        }
    }
}

} // verus!
