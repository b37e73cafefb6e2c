//! Stand-ins for the producer's ports: a database in memory, a pool that
//! hands out what it was given, a relayer with a fixed view and executors
//! that complete a block without running anything.

use std::collections::HashMap;
use vstd::prelude::*;
use crate::blockchain::block::{Block, CompressedBlock};
use crate::blockchain::primitives::{BlockHeight, Bytes32, DaBlockHeight};
use crate::blockchain::transaction::{
    clone_transactions, is_copy_of, transaction_views, ConsensusParameters, Transaction,
};
use crate::outside::MERKLE_LEAF_LIMIT;
use crate::producer::ports::{
    BlockProducerDatabase, Executor, Relayer, StorageError, StorageResult, TxPool,
};
use crate::services::executor::{
    EmptyStorage, Error as ExecutorError, ExecutionBlock, ExecutionResult, UncommittedResult,
};

verus! {

broadcast use vstd::std_specs::hash::group_hash_axioms;

/// What the mock database says of a block it does not hold.
pub const MISSING_BLOCK: &'static str = "Didn't find block for test";

/// A database in memory: blocks by their height.
pub struct MockDb {
    /// The stored blocks, keyed by height.
    pub blocks: HashMap<u32, CompressedBlock>,
}

impl MockDb {
    /// A database that holds the given blocks. Where two stand at one
    /// height the later one stays.
    pub fn new(blocks: Vec<(BlockHeight, CompressedBlock)>) -> (db: Self)
        ensures
            forall|i: int|
                0 <= i < blocks@.len() ==> db.blocks@.contains_key(#[trigger] blocks@[i].0.0),
            forall|h: u32|
                db.blocks@.contains_key(h) ==> exists|i: int|
                    0 <= i < blocks@.len() && blocks@[i].0.0 == h && #[trigger] blocks@[i].1
                        == db.blocks@[h],
    {
        let mut map: HashMap<u32, CompressedBlock> = HashMap::new();
        let mut blocks = blocks;
        let ghost all = blocks@;
        let mut reversed: Vec<(BlockHeight, CompressedBlock)> = Vec::new();
        while blocks.len() > 0
            invariant
                blocks@.len() + reversed@.len() == all.len(),
                blocks@ == all.subrange(0, blocks@.len() as int),
                forall|j: int| 0 <= j < reversed@.len() ==> reversed@[j] == all[all.len() - 1 - j],
            decreases blocks@.len(),
        {
            let entry = blocks.pop().unwrap();
            reversed.push(entry);
        }
        let ghost mut done: int = 0;
        while reversed.len() > 0
            invariant
                done + reversed@.len() == all.len(),
                0 <= done,
                forall|j: int| 0 <= j < reversed@.len() ==> reversed@[j] == all[all.len() - 1 - j],
                forall|i: int| 0 <= i < done ==> map@.contains_key(#[trigger] all[i].0.0),
                forall|h: u32|
                    map@.contains_key(h) ==> exists|i: int|
                        0 <= i < done && all[i].0.0 == h && #[trigger] all[i].1 == map@[h],
            decreases reversed@.len(),
        {
            let (height, block) = reversed.pop().unwrap();
            let ghost before = map@;
            map.insert(height.0, block);
            proof {
                assert(all[done] == (height, block));
                assert forall|h: u32| map@.contains_key(h) implies exists|i: int|
                    0 <= i < done + 1 && all[i].0.0 == h && #[trigger] all[i].1 == map@[h] by {
                    if h == height.0 {
                        assert(all[done].1 == map@[h]);
                    } else {
                        assert(before.contains_key(h));
                        let i = choose|i: int|
                            0 <= i < done && all[i].0.0 == h && #[trigger] all[i].1 == before[h];
                        assert(all[i].1 == map@[h]);
                    }
                }
                done = done + 1;
            }
        }
        MockDb { blocks: map }
    }

    /// The root that the mock gives for the headers up to `height`: every
    /// byte is the low byte of the height.
    pub open spec fn mock_root(height: BlockHeight) -> Seq<u8> {
        Seq::new(32, |i: int| height.0 as u8)
    }
}

impl BlockProducerDatabase for MockDb {
    /// The database gives a copy of the block that it holds at `height`,
    /// and where it holds none, says that it did not find it.
    open spec fn gives_block(&self, height: BlockHeight, block: StorageResult<CompressedBlock>) -> bool {
        match block {
            Ok(b) => self.blocks@.contains_key(height.0) && b@ == self.blocks@[height.0]@,
            Err(e) => !self.blocks@.contains_key(height.0) && e == StorageError::NotFound(
                MISSING_BLOCK,
            ),
        }
    }

    /// The database gives a root whose every byte is the low byte of the
    /// height.
    open spec fn gives_root(&self, height: BlockHeight, root: StorageResult<Bytes32>) -> bool {
        root matches Ok(r) && r@ == Self::mock_root(height)
    }

    fn get_block(&self, height: &BlockHeight) -> (block: StorageResult<CompressedBlock>) {
        match self.blocks.get(&height.0) {
            Some(block) => Ok(block.duplicate()),
            None => Err(StorageError::NotFound(MISSING_BLOCK)),
        }
    }

    fn block_header_merkle_root(&self, height: &BlockHeight) -> (root: StorageResult<Bytes32>) {
        let low = #[verifier::truncate] (height.0 as u8);
        let root = Bytes32 { bytes: [low; 32] };
        assert(root@ =~= Self::mock_root(*height));
        Ok(root)
    }
}

/// A pool that hands out the transactions it was given, all of them, at
/// any height and for any gas.
pub struct MockTxPool(pub Vec<Transaction>);

impl Default for MockTxPool {
    fn default() -> (pool: Self)
        ensures
            pool.0@.len() == 0,
    {
        MockTxPool(Vec::new())
    }
}

impl TxPool for MockTxPool {
    /// The pool hands out copies of all its transactions, in their order,
    /// at any height and for any gas.
    open spec fn hands_out(&self, block_height: BlockHeight, max_gas: u64, txs: Vec<Transaction>) -> bool {
        is_copy_of(txs@, self.0@)
    }

    fn get_includable_txs(&self, block_height: BlockHeight, max_gas: u64) -> (txs: Vec<Transaction>) {
        clone_transactions(&self.0)
    }
}

/// A relayer with a fixed view of the data-availability chain.
#[derive(Clone, Copy, Debug, PartialEq, Eq, Default)]
pub struct MockRelayer {
    /// The highest finalized height it reports.
    pub best_finalized_height: DaBlockHeight,
}

impl Relayer for MockRelayer {
    /// The relayer reports the height it was given.
    open spec fn reports(&self, height: DaBlockHeight) -> bool {
        height == self.best_finalized_height
    }

    fn best_finalized_height(&self) -> (height: DaBlockHeight) {
        self.best_finalized_height
    }
}

/// The block under production holds more transactions than a header can
/// commit to.
pub open spec fn is_too_large(block: ExecutionBlock) -> bool {
    block matches ExecutionBlock::Production(b) && b.transactions@.len() > MERKLE_LEAF_LIMIT
}

/// `completed` is what becomes of `block` where nothing is run: a block
/// under validation as it is; a block under production with its header
/// generated over its transactions and no messages.
pub open spec fn completes(completed: Block, block: ExecutionBlock) -> bool {
    match block {
        ExecutionBlock::Validation(b) => completed == b,
        ExecutionBlock::Production(b) => {
            &&& b.transactions@.len() <= MERKLE_LEAF_LIMIT
            &&& completed@.transactions == b.transactions@
            &&& completed@.header.is_generated_from(
                b.header,
                transaction_views(b.transactions@),
                Seq::<Seq<u8>>::empty(),
            )
        },
    }
}

/// Completes a block under production over no messages; takes a block
/// under validation as it is.
fn complete(block: ExecutionBlock) -> (completed: Result<Block, ExecutorError>)
    ensures
        match completed {
            Ok(c) => completes(c, block),
            Err(e) => e == ExecutorError::TooManyTransactions && is_too_large(block),
        },
{
    match block {
        ExecutionBlock::Production(partial) => {
            if partial.transactions.len() as u64 > MERKLE_LEAF_LIMIT {
                Err(ExecutorError::TooManyTransactions)
            } else {
                let no_messages: Vec<Bytes32> = Vec::new();
                let completed = partial.generate(no_messages.as_slice());
                assert(crate::blockchain::transaction::bytes32_views(no_messages@) =~= Seq::<
                    Seq<u8>,
                >::empty());
                Ok(completed)
            }
        },
        ExecutionBlock::Validation(block) => Ok(block),
    }
}

/// An executor that accepts every transaction: it completes the block and
/// keeps a compressed copy of it.
pub struct MockExecutor {
    /// The blocks that were executed, compressed, oldest first.
    pub executed: Vec<CompressedBlock>,
}

impl MockExecutor {
    /// An executor that has executed nothing.
    pub fn new() -> (executor: Self)
        ensures
            executor.executed@.len() == 0,
    {
        MockExecutor { executed: Vec::new() }
    }
}

impl Executor for MockExecutor {
    type DatabaseTransaction = EmptyStorage;

    /// The executor completes the block over no messages, skips nothing,
    /// and keeps a compressed copy. A block with more transactions than a
    /// header can commit to is refused.
    open spec fn executes(
        &self,
        after: &Self,
        block: ExecutionBlock,
        response: Result<UncommittedResult<EmptyStorage>, ExecutorError>,
    ) -> bool {
        if is_too_large(block) {
            response == Err::<UncommittedResult<EmptyStorage>, ExecutorError>(
                ExecutorError::TooManyTransactions,
            ) && after.executed == self.executed
        } else {
            match response {
                Ok(r) => {
                    &&& completes(r.spec_result().block, block)
                    &&& r.spec_result().skipped_transactions@.len() == 0
                    &&& r.spec_result().tx_status@.len() == 0
                    &&& after.executed@.len() == self.executed@.len() + 1
                    &&& after.executed@.drop_last() == self.executed@
                    &&& after.executed@.last()@.is_compression_of(
                        r.spec_result().block@,
                        crate::blockchain::transaction::DEFAULT_CHAIN_ID,
                    )
                },
                Err(_) => false,
            }
        }
    }

    fn execute_without_commit(&mut self, block: ExecutionBlock) -> (response: Result<
        UncommittedResult<EmptyStorage>,
        ExecutorError,
    >)
    {
        match complete(block) {
            Err(e) => Err(e),
            Ok(completed) => {
                self.executed.push(completed.compress(&ConsensusParameters::default()));
                assert(self.executed@.drop_last() =~= old(self).executed@);
                Ok(
                    UncommittedResult::new(
                        ExecutionResult {
                            block: completed,
                            skipped_transactions: Vec::new(),
                            tx_status: Vec::new(),
                        },
                        EmptyStorage,
                    ),
                )
            },
        }
    }
}

/// An executor that fails once with the error it was given, and from then
/// on accepts every transaction.
pub struct FailingMockExecutor {
    /// The error of the next execution, if it is to fail.
    pub error: Option<ExecutorError>,
}

impl FailingMockExecutor {
    /// An executor whose next execution fails with `error`, if one is given.
    pub fn new(error: Option<ExecutorError>) -> (executor: Self)
        ensures
            executor.error == error,
    {
        FailingMockExecutor { error }
    }
}

impl Executor for FailingMockExecutor {
    type DatabaseTransaction = EmptyStorage;

    /// The executor fails with the error it holds, and drops it; without
    /// one it completes the block over no messages and skips nothing, and
    /// refuses a block with more transactions than a header can commit to.
    open spec fn executes(
        &self,
        after: &Self,
        block: ExecutionBlock,
        response: Result<UncommittedResult<EmptyStorage>, ExecutorError>,
    ) -> bool {
        &&& after.error.is_none()
        &&& match self.error {
            Some(e) => response == Err::<UncommittedResult<EmptyStorage>, ExecutorError>(e),
            None => if is_too_large(block) {
                response == Err::<UncommittedResult<EmptyStorage>, ExecutorError>(
                    ExecutorError::TooManyTransactions,
                )
            } else {
                match response {
                    Ok(r) => {
                        &&& completes(r.spec_result().block, block)
                        &&& r.spec_result().skipped_transactions@.len() == 0
                        &&& r.spec_result().tx_status@.len() == 0
                    },
                    Err(_) => false,
                }
            },
        }
    }

    fn execute_without_commit(&mut self, block: ExecutionBlock) -> (response: Result<
        UncommittedResult<EmptyStorage>,
        ExecutorError,
    >)
    {
        match self.error.take() {
            Some(e) => Err(e),
            None => match complete(block) {
                Err(e) => Err(e),
                Ok(completed) => Ok(
                    UncommittedResult::new(
                        ExecutionResult {
                            block: completed,
                            skipped_transactions: Vec::new(),
                            tx_status: Vec::new(),
                        },
                        EmptyStorage,
                    ),
                ),
            },
        }
    }
}

} // verus!
