//! What a block importer takes.

use vstd::prelude::*;
use crate::blockchain::sealed::SealedBlock;
use crate::services::executor::{TransactionExecutionStatus, Uncommitted};

verus! {

/// A sealed block that is ready to be imported, with the outcome of its
/// transactions.
#[derive(Debug, PartialEq, Eq)]
pub struct ImportResult {
    /// The block under seal.
    pub sealed_block: SealedBlock,
    /// The outcome of each transaction of the block.
    pub tx_status: Vec<TransactionExecutionStatus>,
}

/// An import result with its pending storage changes.
pub type UncommittedResult<DatabaseTransaction> = Uncommitted<ImportResult, DatabaseTransaction>;

impl ImportResult {
    /// The import result of a block that this node produced itself.
    pub fn new_from_local(sealed_block: SealedBlock, tx_status: Vec<TransactionExecutionStatus>) -> (result: Self)
        ensures
            result.sealed_block == sealed_block,
            result.tx_status == tx_status,
    {
        ImportResult { sealed_block, tx_status }
    }
}

} // verus!
