//! The ports of the block producer: the narrow faces of the database, the
//! transaction pool, the relayer and the executor that it works through.
//!
//! Each port says, in a relation beside each of its methods, what the
//! method may answer. The producer records what it asked and what it was
//! answered, and its contract ties every answer on record to the port that
//! gave it.

use vstd::prelude::*;
use crate::blockchain::block::CompressedBlock;
use crate::blockchain::primitives::{BlockHeight, Bytes32, DaBlockHeight};
use crate::blockchain::transaction::Transaction;
use crate::services::executor::{Error as ExecutorError, ExecutionBlock, UncommittedResult};

verus! {

/// Why a database could not answer.
#[derive(Clone, Copy, Debug, PartialEq, Eq)]
#[non_exhaustive]
pub enum StorageError {
    /// Nothing is stored under the key; the text says what was looked for.
    NotFound(&'static str),
    /// The database failed; the text says how.
    Other(&'static str),
}

/// What a database answers.
pub type StorageResult<T> = Result<T, StorageError>;

impl StorageError {
    /// What the error says, in words.
    pub open spec fn spec_message(self) -> Seq<char> {
        match self {
            StorageError::NotFound(what) => "resource was not found: "@ + what@,
            StorageError::Other(how) => "storage failed: "@ + how@,
        }
    }

    /// What the error says, in words.
    pub fn message(&self) -> (text: String)
        ensures
            text@ == self.spec_message(),
    {
        match self {
            StorageError::NotFound(what) => {
                let mut text = String::from_str("resource was not found: ");
                text.append(what);
                text
            },
            StorageError::Other(how) => {
                let mut text = String::from_str("storage failed: ");
                text.append(how);
                text
            },
        }
    }
}

/// The blocks that the producer builds on.
///
/// Beside each method of a port stands a relation that says what the
/// method may answer, and, where it changes the port, what it may leave.
/// An implementation that does not say leaves the relation open.
pub trait BlockProducerDatabase {
    /// Whether the database, as it stands, may answer `block` for the
    /// block at `height`.
    open spec fn gives_block(&self, height: BlockHeight, block: StorageResult<CompressedBlock>) -> bool {
        true
    }

    /// Whether the database, as it stands, may answer `root` for the
    /// Merkle root of the headers up to `height`.
    open spec fn gives_root(&self, height: BlockHeight, root: StorageResult<Bytes32>) -> bool {
        true
    }

    /// Reads the block at `height`.
    fn get_block(&self, height: &BlockHeight) -> (block: StorageResult<CompressedBlock>)
        ensures
            self.gives_block(*height, block),
    ;

    /// Reads the Merkle root of the headers up to `height`.
    fn block_header_merkle_root(&self, height: &BlockHeight) -> (root: StorageResult<Bytes32>)
        ensures
            self.gives_root(*height, root),
    ;
}

/// The transactions that wait for a block.
pub trait TxPool {
    /// Whether the pool, as it stands, may hand out `txs` for a block at
    /// `block_height` within `max_gas`.
    open spec fn hands_out(&self, block_height: BlockHeight, max_gas: u64, txs: Vec<Transaction>) -> bool {
        true
    }

    /// Takes a snapshot of the transactions that a block at `block_height`
    /// may take within `max_gas`, in the order in which the block is to
    /// hold them.
    fn get_includable_txs(&self, block_height: BlockHeight, max_gas: u64) -> (txs: Vec<Transaction>)
        ensures
            self.hands_out(block_height, max_gas, txs),
    ;
}

/// The view on the data-availability chain.
pub trait Relayer {
    /// Whether the relayer, as it stands, may report `height` as the
    /// highest finalized height that it knows.
    open spec fn reports(&self, height: DaBlockHeight) -> bool {
        true
    }

    /// Reads the highest finalized height of the data-availability chain
    /// that the relayer knows.
    fn best_finalized_height(&self) -> (height: DaBlockHeight)
        ensures
            self.reports(height),
    ;
}

/// The executor of blocks.
pub trait Executor {
    /// The storage changes that an execution leaves pending.
    type DatabaseTransaction;

    /// Whether the executor, handed `block`, may answer `response` and be
    /// left as `after`.
    open spec fn executes(
        &self,
        after: &Self,
        block: ExecutionBlock,
        response: Result<UncommittedResult<Self::DatabaseTransaction>, ExecutorError>,
    ) -> bool {
        true
    }

    /// Executes the block and leaves the changes uncommitted.
    fn execute_without_commit(&mut self, block: ExecutionBlock) -> (response: Result<
        UncommittedResult<Self::DatabaseTransaction>,
        ExecutorError,
    >)
        ensures
            old(self).executes(final(self), block, response),
    ;
}

} // verus!
