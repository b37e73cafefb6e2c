//! A producer over stand-in ports, ready to be put to a scenario.

use vstd::prelude::*;
use crate::blockchain::block::CompressedBlock;
use crate::blockchain::primitives::BlockHeight;
use crate::producer::block_producer::Producer;
use crate::producer::config::Config;
use crate::producer::mocks::{MockDb, MockExecutor, MockRelayer, MockTxPool};
use crate::producer::ports::Executor;

verus! {

/// The parts of a producer over stand-in ports.
pub struct TestContext<Exec> {
    /// The settings.
    pub config: Config,
    /// The database.
    pub db: MockDb,
    /// The relayer.
    pub relayer: MockRelayer,
    /// The executor.
    pub executor: Exec,
    /// The pool.
    pub txpool: MockTxPool,
}

impl TestContext<MockExecutor> {
    /// A context whose database holds the default block at height zero and
    /// nothing else.
    pub fn default() -> (ctx: Self)
        ensures
            ctx.db.blocks@.dom() == set![0u32],
            ctx.db.blocks@[0u32]@.header.application.da_height.0 == 0,
            ctx.relayer.best_finalized_height.0 == 0,
            ctx.txpool.0@.len() == 0,
            ctx.executor.executed@.len() == 0,
    {
        let genesis_height = BlockHeight(0);
        let genesis_block = CompressedBlock::default();
        let mut blocks: Vec<(BlockHeight, CompressedBlock)> = Vec::new();
        blocks.push((genesis_height, genesis_block));
        let db = MockDb::new(blocks);
        assert(blocks@[0].0.0 == 0);
        assert(db.blocks@.dom() =~= set![0u32]);
        Self::default_from_db(db)
    }

    /// A context over the given database: an empty pool, an executor that
    /// accepts everything, a relayer at height zero and the default
    /// settings.
    pub fn default_from_db(db: MockDb) -> (ctx: Self)
        ensures
            ctx.db == db,
            ctx.relayer.best_finalized_height.0 == 0,
            ctx.txpool.0@.len() == 0,
            ctx.executor.executed@.len() == 0,
    {
        let txpool = MockTxPool::default();
        let executor = MockExecutor::new();
        let relayer = MockRelayer { best_finalized_height: crate::blockchain::primitives::DaBlockHeight(0) };
        let config = Config::default();
        TestContext { config, db, relayer, executor, txpool }
    }
}

impl<Exec: Executor> TestContext<Exec> {
    /// The same context with another executor.
    pub fn with_executor<Other: Executor>(self, executor: Other) -> (ctx: TestContext<Other>)
        ensures
            ctx.config == self.config,
            ctx.db == self.db,
            ctx.relayer == self.relayer,
            ctx.txpool == self.txpool,
            ctx.executor == executor,
    {
        TestContext {
            config: self.config,
            db: self.db,
            relayer: self.relayer,
            executor,
            txpool: self.txpool,
        }
    }

    /// The producer over the parts of the context.
    pub fn producer(self) -> (producer: Producer<MockDb, MockTxPool, Exec, MockRelayer>)
        ensures
            producer.config == self.config,
            producer.db == self.db,
            producer.txpool == self.txpool,
            producer.executor == self.executor,
            producer.relayer == self.relayer,
            producer.history@.len() == 0,
    {
        Producer::new(self.config, self.db, self.txpool, self.executor, self.relayer)
    }
}

} // verus!
