//! What the ledger's own logic can refuse.
use vstd::prelude::*;

verus! {

#[derive(Clone, Copy, Debug, PartialEq, Eq)]
pub enum LedgerError {
    /// The ledger's storage refused or failed a request.
    SqlxLedger,
    /// A transaction's metadata could not be read as expected.
    SerdeJson,
    MissingTxMetadata,
    MismatchedTxMetadata,
    ExpectedEntryNotFoundInTx(&'static str),
    TransactionNotFound,
}

/// Why the ledger's storage refused to create an account or a template.
#[derive(Clone, Copy, Debug, PartialEq, Eq, Structural)]
pub enum CreateError {
    /// One with the same key exists already.
    DuplicateKey,
    Other,
}

} // verus!
