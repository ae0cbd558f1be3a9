//! The ledger's transaction templates, and the values their postings take.
pub mod shared_meta;
pub mod spent_utxo_settled;
pub mod utxo_detected;
pub mod utxo_dropped;
pub mod batch_broadcast;
pub mod batch_created;
pub mod fix_legacy_batch_created;
pub mod spend_detected;
pub mod spend_settled;
