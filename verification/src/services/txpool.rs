//! What a transaction pool tells about its transactions.

use vstd::prelude::*;

verus! {

/// Why a pool dropped a transaction.
#[derive(Clone, Copy, Debug, PartialEq, Eq, Structural)]
#[non_exhaustive]
pub enum Error {
    /// The transaction carries no metadata.
    NoMetadata,
    /// The transaction offers less than the pool's lowest gas price.
    NotInsertedGasPriceTooLow,
    /// The pool is full.
    NotInsertedLimitHit,
}

/// The status of a transaction in a pool. A status that arrives is a hint
/// that something changed; what the pool holds has to be asked of the pool.
#[derive(Clone, Copy, Debug, PartialEq, Eq, Structural)]
pub enum TxStatus {
    /// The transaction was submitted to the pool.
    Submitted,
    /// The transaction was included in a block.
    Completed,
    /// The transaction was dropped from the pool.
    SqueezedOut {
        /// Why it was dropped.
        reason: Error,
    },
}

} // verus!
