//! Stand-ins for the scheduler's ports: a pool over a list of
//! transactions, a producer that gives a block for every request and an
//! importer that keeps what it was handed. Each notes what was asked of it.

use vstd::prelude::*;
use crate::blockchain::block::Block;
use crate::blockchain::primitives::{BlockHeight, Tai64, TxId};
use crate::blockchain::sealed::SealedBlock;
use crate::blockchain::transaction::{ConsensusParameters, Transaction};
use crate::lists::reversed;
use crate::poa::ports::{BlockImporter, BlockProducer, ImporterError, TransactionPool};
use crate::producer::block_producer::ProductionError;
use crate::services::block_importer::UncommittedResult as UncommittedImportResult;
use crate::services::executor::{
    EmptyStorage, Error as ExecutorError, ExecutionResult, Uncommitted,
    UncommittedResult as UncommittedExecutionResult,
};

verus! {

/// The sum of the gas limits of the transactions.
pub open spec fn gas_sum(txs: Seq<Transaction>) -> nat
    decreases txs.len(),
{
    if txs.len() == 0 {
        0
    } else {
        gas_sum(txs.drop_last()) + txs.last()@.gas_limit as nat
    }
}

/// The sum of the gas limits of the transactions, as far as sixty-four
/// bits count.
pub open spec fn saturating_gas_sum(txs: Seq<Transaction>) -> u64 {
    if gas_sum(txs) > u64::MAX {
        u64::MAX
    } else {
        gas_sum(txs) as u64
    }
}

/// Whether `tx` is named by one of `ids`: whether its identifier on the
/// chain `chain_id` is among them.
pub open spec fn is_named(tx: Transaction, ids: Seq<TxId>, chain_id: u64) -> bool {
    exists|i: int| 0 <= i < ids.len() && (#[trigger] ids[i])@ == tx@.id(chain_id)
}

/// Of `txs`, in their order, the transactions that `ids` name.
pub open spec fn named(txs: Seq<Transaction>, ids: Seq<TxId>, chain_id: u64) -> Seq<Transaction> {
    txs.filter(|tx: Transaction| is_named(tx, ids, chain_id))
}

/// Of `txs`, in their order, the transactions that `ids` do not name.
pub open spec fn unnamed(txs: Seq<Transaction>, ids: Seq<TxId>, chain_id: u64) -> Seq<
    Transaction,
> {
    txs.filter(|tx: Transaction| !is_named(tx, ids, chain_id))
}

/// Tells whether `tx` is named by one of `ids`.
pub fn names(ids: &Vec<TxId>, tx: &Transaction, params: &ConsensusParameters) -> (found: bool)
    ensures
        found == is_named(*tx, ids@, params.chain_id),
{
    let id = tx.id(params);
    let mut i: usize = 0;
    while i < ids.len()
        invariant
            i <= ids.len(),
            id@ == tx@.id(params.chain_id),
            forall|j: int| 0 <= j < i ==> (#[trigger] ids@[j])@ != tx@.id(params.chain_id),
        decreases ids.len() - i,
    {
        proof {
            crate::blockchain::primitives::Bytes32::lemma_view_injective(ids@[i as int], id);
        }
        if ids[i] == id {
            return true;
        }
        i += 1;
    }
    false
}

/// Parts `txs` into the transactions that `ids` do not name and those
/// that they name, each in the order in which they stood.
pub fn split_named(txs: Vec<Transaction>, ids: &Vec<TxId>, params: &ConsensusParameters) -> (parts: (
    Vec<Transaction>,
    Vec<Transaction>,
))
    ensures
        parts.0@ == unnamed(txs@, ids@, params.chain_id),
        parts.1@ == named(txs@, ids@, params.chain_id),
{
    let ghost all = txs@;
    let ghost is = |tx: Transaction| is_named(tx, ids@, params.chain_id);
    let ghost is_not = |tx: Transaction| !is_named(tx, ids@, params.chain_id);
    let mut rest = reversed(txs);
    let mut kept: Vec<Transaction> = Vec::new();
    let mut left: Vec<Transaction> = Vec::new();
    let ghost mut done: int = 0;
    proof {
        reveal(Seq::filter);
        assert(all.subrange(0, 0) =~= Seq::<Transaction>::empty());
    }
    while rest.len() > 0
        invariant
            0 <= done,
            done + rest@.len() == all.len(),
            forall|j: int| 0 <= j < rest@.len() ==> rest@[j] == all[all.len() - 1 - j],
            kept@ == all.subrange(0, done).filter(is_not),
            left@ == all.subrange(0, done).filter(is),
            is == (|tx: Transaction| is_named(tx, ids@, params.chain_id)),
            is_not == (|tx: Transaction| !is_named(tx, ids@, params.chain_id)),
        decreases rest@.len(),
    {
        let tx = rest.pop().unwrap();
        proof {
            assert(tx == all[done]);
            assert(all.subrange(0, done + 1) =~= all.subrange(0, done).push(tx));
            all.subrange(0, done).lemma_filter_push(tx, is);
            all.subrange(0, done).lemma_filter_push(tx, is_not);
            done = done + 1;
        }
        if names(ids, &tx, params) {
            left.push(tx);
        } else {
            kept.push(tx);
        }
    }
    assert(all.subrange(0, done) =~= all);
    (kept, left)
}

/// A pool over a list of transactions.
pub struct MockTransactionPool {
    /// The transactions that wait.
    pub txs: Vec<Transaction>,
    /// The removals that were asked for, oldest first.
    pub removed: Vec<Vec<TxId>>,
    /// The parameters under which identifiers are computed.
    pub params: ConsensusParameters,
}

/// What the scenario needs beside the pool: the slot through which the
/// latest status reaches the scheduler.
pub struct TxPoolContext {
    /// The pool.
    pub txpool: MockTransactionPool,
    /// The latest status that was sent and not taken yet.
    pub status_sender: crate::services::watch::Watch<Option<crate::services::txpool::TxStatus>>,
}

/// Takes the latest status out of the slot, for the scheduler to act on:
/// the status that was sent and not taken yet, if there is one, and the
/// slot is left without a status, so that each status is acted on once.
pub fn take_status(
    slot: &mut crate::services::watch::Watch<Option<crate::services::txpool::TxStatus>>,
) -> (status: Option<crate::services::txpool::TxStatus>)
    ensures
        status == old(slot).value(),
        final(slot).value().is_none(),
        status.is_none() ==> *final(slot) == *old(slot),
        status.is_some() ==> final(slot).version() == crate::services::watch::next_version(
            old(slot).version(),
        ),
{
    let status = *slot.borrow();
    if status.is_some() {
        let _ = slot.send_replace(None);
    }
    status
}

impl MockTransactionPool {
    /// An empty pool, from which no status will come.
    pub fn no_tx_updates() -> (pool: Self)
        ensures
            pool.txs@.len() == 0,
            pool.removed@.len() == 0,
            pool.params == ConsensusParameters::standard(),
    {
        MockTransactionPool {
            txs: Vec::new(),
            removed: Vec::new(),
            params: ConsensusParameters::default(),
        }
    }

    /// A pool that holds `txs`, with the slot for its status.
    pub fn new_with_txs(txs: Vec<Transaction>) -> (context: TxPoolContext)
        ensures
            context.txpool.txs == txs,
            context.txpool.removed@.len() == 0,
            context.txpool.params == ConsensusParameters::standard(),
            context.status_sender.value().is_none(),
    {
        TxPoolContext {
            txpool: MockTransactionPool {
                txs,
                removed: Vec::new(),
                params: ConsensusParameters::default(),
            },
            status_sender: crate::services::watch::Watch::new(None),
        }
    }
}

impl TransactionPool for MockTransactionPool {
    /// The pool answers with the number of its transactions.
    open spec fn counts(&self, n: usize) -> bool {
        n == self.txs@.len()
    }

    /// The pool answers with the sum of the gas limits of its
    /// transactions, as far as sixty-four bits count.
    open spec fn sums(&self, gas: u64) -> bool {
        gas == saturating_gas_sum(self.txs@)
    }

    /// The transactions that are named leave, in the order in which they
    /// stood, and are the answer; the others stay, in their order; and the
    /// identifiers are noted.
    open spec fn removes(&self, after: &Self, tx_ids: Seq<TxId>, removed: Seq<Transaction>) -> bool {
        &&& after.txs@ == unnamed(self.txs@, tx_ids, self.params.chain_id)
        &&& removed == named(self.txs@, tx_ids, self.params.chain_id)
        &&& after.params == self.params
        &&& after.removed@.len() == self.removed@.len() + 1
        &&& after.removed@.drop_last() == self.removed@
        &&& after.removed@.last()@ == tx_ids
    }

    fn pending_number(&self) -> (n: usize) {
        self.txs.len()
    }

    fn total_consumable_gas(&self) -> (gas: u64) {
        let mut total: u64 = 0;
        let mut i: usize = 0;
        proof {
            assert(self.txs@.subrange(0, 0) =~= Seq::<Transaction>::empty());
        }
        while i < self.txs.len()
            invariant
                i <= self.txs.len(),
                total == saturating_gas_sum(self.txs@.subrange(0, i as int)),
            decreases self.txs.len() - i,
        {
            proof {
                assert(self.txs@.subrange(0, i + 1).drop_last() =~= self.txs@.subrange(0, i as int));
            }
            total = total.saturating_add(self.txs[i].gas_limit());
            i += 1;
        }
        assert(self.txs@.subrange(0, i as int) =~= self.txs@);
        total
    }

    fn remove_txs(&mut self, tx_ids: Vec<TxId>) -> (removed: Vec<Transaction>) {
        let mut txs: Vec<Transaction> = Vec::new();
        core::mem::swap(&mut self.txs, &mut txs);
        let (kept, left) = split_named(txs, &tx_ids, &self.params);
        self.txs = kept;
        self.removed.push(tx_ids);
        assert(self.removed@.drop_last() =~= old(self).removed@);
        left
    }
}

/// A producer that gives, for every request, a block at the height and
/// time asked for, and reports the transactions it was told to skip; or
/// that fails every request with the error it was given.
pub struct MockBlockProducer {
    /// The transactions that every production reports as skipped.
    pub skipped: Vec<Transaction>,
    /// The error of every production, where productions are to fail.
    pub failure: Option<ProductionError>,
    /// The requests so far: height, time and gas ceiling.
    pub requests: Vec<(BlockHeight, Tai64, u64)>,
}

impl MockBlockProducer {
    /// A producer that skips `skipped` in every production, and fails with
    /// `failure` where one is given.
    pub fn new(skipped: Vec<Transaction>, failure: Option<ProductionError>) -> (producer: Self)
        ensures
            producer.skipped == skipped,
            producer.failure == failure,
            producer.requests@.len() == 0,
    {
        MockBlockProducer { skipped, failure, requests: Vec::new() }
    }
}

impl Default for MockBlockProducer {
    /// A producer that skips nothing and does not fail.
    fn default() -> (producer: Self)
        ensures
            producer.skipped@.len() == 0,
            producer.failure.is_none(),
            producer.requests@.len() == 0,
    {
        MockBlockProducer::new(Vec::new(), None)
    }
}

impl BlockProducer for MockBlockProducer {
    type Database = EmptyStorage;

    /// The request is noted. Where the producer is to fail it fails; else
    /// it gives an empty block at the height and time asked for, with its
    /// digest kept beside the header, and reports its transactions as
    /// skipped, each for an output that exists already.
    open spec fn produces(
        &self,
        after: &Self,
        height: BlockHeight,
        block_time: Tai64,
        max_gas: u64,
        response: Result<UncommittedExecutionResult<EmptyStorage>, ProductionError>,
    ) -> bool {
        &&& after.skipped == self.skipped
        &&& after.failure == self.failure
        &&& after.requests@ == self.requests@.push((height, block_time, max_gas))
        &&& match self.failure {
            Some(e) => response == Err::<
                UncommittedExecutionResult<EmptyStorage>,
                ProductionError,
            >(e),
            None => match response {
                Err(_) => false,
                Ok(produced) => {
                    let result = produced.spec_result();
                    &&& result.block@.header.consensus.height == height
                    &&& result.block@.header.consensus.time == block_time
                    &&& result.block.has_valid_id()
                    &&& result.block@.transactions.len() == 0
                    &&& result.tx_status@.len() == 0
                    &&& result.skipped_transactions@.len() == self.skipped@.len()
                    &&& forall|i: int|
                        0 <= i < result.skipped_transactions@.len() ==> {
                            &&& (#[trigger] result.skipped_transactions@[i]).0@
                                == self.skipped@[i]@
                            &&& result.skipped_transactions@[i].1
                                == ExecutorError::OutputAlreadyExists
                        }
                },
            },
        }
    }

    fn produce_and_execute_block(&mut self, height: BlockHeight, block_time: Tai64, max_gas: u64) -> (response:
        Result<UncommittedExecutionResult<EmptyStorage>, ProductionError>)
    {
        self.requests.push((height, block_time, max_gas));
        match self.failure {
            Some(e) => Err(e),
            None => {
                let mut block: Block = Block::default();
                let header = block.header_mut();
                header.consensus.height = height;
                header.consensus.time = block_time;
                header.recalculate_metadata();
                let mut skipped_transactions: Vec<(Transaction, ExecutorError)> = Vec::new();
                let mut i: usize = 0;
                while i < self.skipped.len()
                    invariant
                        i <= self.skipped.len(),
                        skipped_transactions@.len() == i,
                        forall|j: int|
                            0 <= j < i ==> {
                                &&& (#[trigger] skipped_transactions@[j]).0@ == self.skipped@[j]@
                                &&& skipped_transactions@[j].1
                                    == ExecutorError::OutputAlreadyExists
                            },
                    decreases self.skipped.len() - i,
                {
                    skipped_transactions.push(
                        (self.skipped[i].clone(), ExecutorError::OutputAlreadyExists),
                    );
                    i += 1;
                }
                Ok(
                    Uncommitted::new(
                        ExecutionResult { block, skipped_transactions, tx_status: Vec::new() },
                        EmptyStorage,
                    ),
                )
            },
        }
    }
}

/// An importer that keeps the blocks it was handed; or that refuses every
/// commit with the error it was given and keeps nothing.
pub struct MockBlockImporter {
    /// The blocks that were committed, oldest first.
    pub committed: Vec<SealedBlock>,
    /// The error of every commit, where commits are to fail.
    pub failure: Option<ImporterError>,
    /// The number of commits that were asked for.
    pub calls: usize,
}

impl MockBlockImporter {
    /// An importer that fails with `failure` where one is given.
    pub fn new(failure: Option<ImporterError>) -> (importer: Self)
        ensures
            importer.failure == failure,
            importer.committed@.len() == 0,
            importer.calls == 0,
    {
        MockBlockImporter { committed: Vec::new(), failure, calls: 0 }
    }
}

impl Default for MockBlockImporter {
    /// An importer that commits everything.
    fn default() -> (importer: Self)
        ensures
            importer.failure.is_none(),
            importer.committed@.len() == 0,
            importer.calls == 0,
    {
        MockBlockImporter::new(None)
    }
}

impl BlockImporter for MockBlockImporter {
    type Database = EmptyStorage;

    /// The call is counted. Where the importer is to fail it fails and
    /// keeps nothing; else it keeps the block.
    open spec fn imports(
        &self,
        after: &Self,
        result: UncommittedImportResult<EmptyStorage>,
        response: Result<(), ImporterError>,
    ) -> bool {
        &&& after.failure == self.failure
        &&& after.calls == if self.calls == usize::MAX {
            usize::MAX
        } else {
            (self.calls + 1) as usize
        }
        &&& match self.failure {
            Some(e) => response == Err::<(), ImporterError>(e) && after.committed == self.committed,
            None => response.is_ok() && after.committed@ == self.committed@.push(
                result.spec_result().sealed_block,
            ),
        }
    }

    fn commit_result(&mut self, result: UncommittedImportResult<EmptyStorage>) -> (response: Result<
        (),
        ImporterError,
    >)
    {
        self.calls = self.calls.saturating_add(1);
        match self.failure {
            Some(e) => Err(e),
            None => {
                let import = result.into_result();
                self.committed.push(import.sealed_block);
                Ok(())
            },
        }
    }
}

} // verus!
