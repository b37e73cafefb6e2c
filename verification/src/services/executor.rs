//! What an executor takes and gives.

use vstd::prelude::*;
use crate::blockchain::block::{Block, PartialFuelBlock};
use crate::blockchain::primitives::Bytes32;
use crate::blockchain::transaction::Transaction;

verus! {

/// Why an executor refused a transaction or a block.
#[derive(Clone, Copy, Debug, PartialEq, Eq)]
#[non_exhaustive]
pub enum Error {
    /// A transaction with this identifier was executed before.
    TransactionIdCollision(Bytes32),
    /// An output that the transaction creates exists already.
    OutputAlreadyExists,
    /// The block holds more transactions than a block can commit to.
    TooManyTransactions,
}

/// The outcome of executing one transaction.
#[derive(Clone, Copy, Debug, PartialEq, Eq)]
pub enum TransactionExecutionResult {
    /// The transaction ran to its end.
    Success,
    /// The transaction was reverted.
    Failed,
}

/// The outcome of one transaction of a block.
#[derive(Clone, Copy, Debug, PartialEq, Eq)]
pub struct TransactionExecutionStatus {
    /// The identifier of the transaction.
    pub id: Bytes32,
    /// How it ended.
    pub result: TransactionExecutionResult,
}

/// A block to execute: one that is being produced, or one that was produced
/// elsewhere and is being validated.
#[derive(Debug)]
pub enum ExecutionBlock {
    /// A block under production: its header is completed by the execution.
    Production(PartialFuelBlock),
    /// A produced block: the execution must reproduce it.
    Validation(Block),
}

/// What the execution of a block gave.
#[derive(Debug)]
pub struct ExecutionResult {
    /// The block with the transactions that were accepted, in the order in
    /// which they were submitted.
    pub block: Block,
    /// The transactions that were selected and then rejected, each with the
    /// reason, in the order in which they were met.
    pub skipped_transactions: Vec<(Transaction, Error)>,
    /// The outcome of each accepted transaction.
    pub tx_status: Vec<TransactionExecutionStatus>,
}

/// Pending storage changes that change nothing.
#[derive(Clone, Copy, Debug, PartialEq, Eq, Structural, Default)]
pub struct EmptyStorage;

/// A result paired with the storage changes that belong to it and are not
/// yet durable. Whoever holds it commits it or drops it, whole.
#[derive(Debug)]
pub struct Uncommitted<Result, DatabaseTransaction> {
    result: Result,
    database_transaction: DatabaseTransaction,
}

/// An execution result with its pending storage changes.
pub type UncommittedResult<DatabaseTransaction> = Uncommitted<ExecutionResult, DatabaseTransaction>;

impl<Result, DatabaseTransaction> Uncommitted<Result, DatabaseTransaction> {
    /// The result part.
    pub closed spec fn spec_result(self) -> Result {
        self.result
    }

    /// The pending storage changes.
    pub closed spec fn spec_transaction(self) -> DatabaseTransaction {
        self.database_transaction
    }

    /// Pairs a result with its pending storage changes.
    pub fn new(result: Result, database_transaction: DatabaseTransaction) -> (pair: Self)
        ensures
            pair.spec_result() == result,
            pair.spec_transaction() == database_transaction,
    {
        Uncommitted { result, database_transaction }
    }

    /// The result part.
    pub fn result(&self) -> (result: &Result)
        ensures
            *result == self.spec_result(),
    {
        &self.result
    }

    /// Takes the pair apart.
    pub fn into_parts(self) -> (parts: (Result, DatabaseTransaction))
        ensures
            parts.0 == self.spec_result(),
            parts.1 == self.spec_transaction(),
    {
        (self.result, self.database_transaction)
    }

    /// Keeps the result and drops the pending storage changes.
    pub fn into_result(self) -> (result: Result)
        ensures
            result == self.spec_result(),
    {
        self.result
    }

    /// Keeps the pending storage changes and drops the result.
    pub fn into_transaction(self) -> (transaction: DatabaseTransaction)
        ensures
            transaction == self.spec_transaction(),
    {
        self.database_transaction
    }
}

} // verus!
