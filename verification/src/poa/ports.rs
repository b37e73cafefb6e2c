//! The ports of the scheduler: the transaction pool, the block producer
//! and the block importer.
//!
//! Each port says, in a relation beside each of its methods, what the
//! method may answer. The scheduler records what it asked and what it was
//! answered, and its contracts tie every answer on record to the port that
//! gave it.

use vstd::prelude::*;
use crate::blockchain::primitives::{BlockHeight, Tai64, TxId};
use crate::blockchain::transaction::Transaction;
use crate::producer::block_producer::ProductionError;
use crate::producer::ports::StorageError;
use crate::services::block_importer::UncommittedResult as UncommittedImportResult;
use crate::services::executor::UncommittedResult as UncommittedExecutionResult;

verus! {

/// The transaction pool, as the scheduler sees it.
///
/// Beside each method stands a relation that says what the method may
/// answer, and, where it changes the pool, what it may leave. An
/// implementation that does not say leaves the relation open, and the
/// scheduler's contracts tell of it only what was asked and answered.
pub trait TransactionPool {
    /// Whether the pool, as it stands, may answer `n` for the number of
    /// transactions that wait.
    open spec fn counts(&self, n: usize) -> bool {
        true
    }

    /// Whether the pool, as it stands, may answer `gas` for the gas that
    /// the waiting transactions can use.
    open spec fn sums(&self, gas: u64) -> bool {
        true
    }

    /// Whether the pool, asked to remove `tx_ids`, may answer `removed` and
    /// be left as `after`.
    open spec fn removes(&self, after: &Self, tx_ids: Seq<TxId>, removed: Seq<Transaction>) -> bool {
        true
    }

    /// Counts the transactions that wait in the pool.
    fn pending_number(&self) -> (n: usize)
        ensures
            self.counts(n),
    ;

    /// Adds up the gas that the waiting transactions can use.
    fn total_consumable_gas(&self) -> (gas: u64)
        ensures
            self.sums(gas),
    ;

    /// Removes the transactions with the given identifiers and returns the
    /// ones that left.
    fn remove_txs(&mut self, tx_ids: Vec<TxId>) -> (removed: Vec<Transaction>)
        ensures
            old(self).removes(final(self), tx_ids@, removed@),
    ;
}

/// The block producer, as the scheduler sees it.
pub trait BlockProducer {
    /// The storage changes that a production leaves pending.
    type Database;

    /// Whether the producer, asked for the block at `height` and
    /// `block_time` within `max_gas`, may answer `response` and be left as
    /// `after`.
    open spec fn produces(
        &self,
        after: &Self,
        height: BlockHeight,
        block_time: Tai64,
        max_gas: u64,
        response: Result<UncommittedExecutionResult<Self::Database>, ProductionError>,
    ) -> bool {
        true
    }

    /// Produces and executes the block at `height` and `block_time` within
    /// `max_gas`, and leaves the result uncommitted.
    fn produce_and_execute_block(&mut self, height: BlockHeight, block_time: Tai64, max_gas: u64) -> (response:
        Result<UncommittedExecutionResult<Self::Database>, ProductionError>)
        ensures
            old(self).produces(final(self), height, block_time, max_gas, response),
    ;
}

/// Why an importer did not commit.
#[derive(Clone, Copy, Debug, PartialEq, Eq)]
#[non_exhaustive]
pub enum ImporterError {
    /// The block does not stand at the height that follows the chain's.
    IncorrectBlockHeight {
        /// The height that would follow.
        expected: BlockHeight,
        /// The height of the block.
        got: BlockHeight,
    },
    /// The storage refused the changes.
    Storage(StorageError),
}

/// The block importer, as the scheduler sees it. A commit is whole: the
/// block and its storage changes are durable, or the importer answers with
/// an error and nothing is.
pub trait BlockImporter {
    /// The storage changes that come with a block.
    type Database;

    /// Whether the importer, handed `result`, may answer `response` and be
    /// left as `after`.
    open spec fn imports(
        &self,
        after: &Self,
        result: UncommittedImportResult<Self::Database>,
        response: Result<(), ImporterError>,
    ) -> bool {
        true
    }

    /// Commits the block and its storage changes.
    fn commit_result(&mut self, result: UncommittedImportResult<Self::Database>) -> (response:
        Result<(), ImporterError>)
        ensures
            old(self).imports(final(self), result, response),
    ;
}

/// What the pool answered when the scheduler looked at it.
#[derive(Clone, Copy, Debug, PartialEq, Eq)]
pub struct PoolState {
    /// The number of transactions that wait.
    pub pending: usize,
    /// The gas that the waiting transactions can use, where it was asked.
    pub consumable_gas: Option<u64>,
}

impl PoolState {
    /// Nothing waits.
    pub open spec fn empty() -> PoolState {
        PoolState { pending: 0, consumable_gas: None }
    }

    /// The pool `pool`, as it stands, may have answered this.
    pub open spec fn said_by<T: TransactionPool>(self, pool: T) -> bool {
        &&& pool.counts(self.pending)
        &&& self.consumable_gas matches Some(gas) ==> pool.sums(gas)
    }

    /// The gas was asked exactly where it matters: where it is wanted and
    /// a transaction waits.
    pub open spec fn is_lazy(self, with_gas: bool) -> bool {
        self.consumable_gas.is_some() == (with_gas && self.pending > 0)
    }

    /// The gas that the waiting transactions can use; none where it was not
    /// asked.
    pub open spec fn gas(self) -> u64 {
        match self.consumable_gas {
            Some(gas) => gas,
            None => 0,
        }
    }
}

/// One production as the scheduler records it.
pub struct Production<DatabaseTransaction> {
    /// The height asked for.
    pub height: BlockHeight,
    /// The time asked for.
    pub block_time: Tai64,
    /// The gas ceiling asked for.
    pub max_gas: u64,
    /// What the producer answered.
    pub response: Result<UncommittedExecutionResult<DatabaseTransaction>, ProductionError>,
}

/// One commit as the scheduler records it.
pub struct Commit<DatabaseTransaction> {
    /// What was handed over.
    pub result: UncommittedImportResult<DatabaseTransaction>,
    /// What the importer answered.
    pub response: Result<(), ImporterError>,
}

/// What the scheduler asked of its ports and what it was answered, each
/// kind of call in the order of the calls.
pub struct History<DatabaseTransaction> {
    /// What the pool answered each time the scheduler looked at it.
    pub surveys: Seq<PoolState>,
    /// The removals that were asked of the pool: for each the identifiers
    /// that were handed over, in their order.
    pub removals: Seq<Seq<TxId>>,
    /// What the pool answered to each removal: the transactions that left.
    pub removed: Seq<Seq<Transaction>>,
    /// The productions.
    pub productions: Seq<Production<DatabaseTransaction>>,
    /// The commits.
    pub commits: Seq<Commit<DatabaseTransaction>>,
}

} // verus!
