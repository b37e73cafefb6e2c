use fuel_node::blockchain::block::{CompressedBlock, PartialFuelBlock};
use fuel_node::blockchain::header::{ApplicationHeader, ConsensusHeader, PartialBlockHeader};
use fuel_node::blockchain::primitives::{BlockHeight, Bytes32, DaBlockHeight, Tai64};
use fuel_node::blockchain::transaction::{ConsensusParameters, Transaction};
use fuel_node::producer::block_producer::{
    previous_info, Error, PreviousBlockInfo, ProductionError,
};
use fuel_node::producer::mocks::{FailingMockExecutor, MockDb, MockExecutor, MockTxPool};
use fuel_node::producer::ports::{BlockProducerDatabase, Executor, StorageError};
use fuel_node::producer::test_context::TestContext;
use fuel_node::services::executor::{Error as ExecutorError, ExecutionBlock};

fn now() -> Tai64 {
    Tai64(1_700_000_000)
}

fn previous_block(height: u32, da_height: u64, prev_root: [u8; 32]) -> CompressedBlock {
    PartialFuelBlock {
        header: PartialBlockHeader {
            application: ApplicationHeader {
                da_height: DaBlockHeight(da_height),
                ..Default::default()
            },
            consensus: ConsensusHeader {
                height: BlockHeight(height),
                prev_root: Bytes32::new(prev_root),
                ..Default::default()
            },
        },
        transactions: vec![],
    }
    .generate(&[])
    .compress(&ConsensusParameters::default())
}

#[test]
fn cant_produce_at_genesis_height() {
    let ctx = TestContext::default();
    let mut producer = ctx.producer();

    let err = producer
        .produce_and_execute_block(BlockHeight(0), now(), 1_000_000_000)
        .expect_err("expected failure");

    assert!(
        matches!(err.as_producer_error(), Some(Error::GenesisBlock)),
        "unexpected err {err:?}"
    );
    assert!(producer.executor.executed.is_empty());
}

#[test]
fn can_produce_initial_block() {
    let ctx = TestContext::default();
    let mut producer = ctx.producer();

    let result = producer.produce_and_execute_block(BlockHeight(1), now(), 1_000_000_000);

    assert!(result.is_ok());
}

#[test]
fn can_produce_next_block() {
    // simple happy path for producing atop pre-existing block
    let prev_height = BlockHeight(1);
    let previous_block = previous_block(1, 0, [0x5a; 32]);

    let db = MockDb::new(vec![(prev_height, previous_block)]);

    let ctx = TestContext::default_from_db(db);
    let mut producer = ctx.producer();
    let result = producer.produce_and_execute_block(BlockHeight(2), now(), 1_000_000_000);

    assert!(result.is_ok());
}

#[test]
fn cant_produce_if_no_previous_block() {
    // fail if there is no block that precedes the current height.
    let ctx = TestContext::default();
    let mut producer = ctx.producer();

    let err = producer
        .produce_and_execute_block(BlockHeight(100), now(), 1_000_000_000)
        .expect_err("expected failure");

    let text = err.as_storage_error().expect("a storage error").message();
    assert!(text.contains("Didn't find block for test"));
}

#[test]
fn cant_produce_if_previous_block_da_height_too_high() {
    // setup previous block with a high da_height
    let prev_da_height = DaBlockHeight(100);
    let prev_height = BlockHeight(1);
    let previous_block = previous_block(1, 100, [0; 32]);

    let db = MockDb::new(vec![(prev_height, previous_block)]);
    let mut ctx = TestContext::default_from_db(db);
    // set our relayer best finalized height to less than previous
    ctx.relayer.best_finalized_height = DaBlockHeight(prev_da_height.0 - 1);
    let mut producer = ctx.producer();

    let err = producer
        .produce_and_execute_block(BlockHeight(2), now(), 1_000_000_000)
        .expect_err("expected failure");

    assert!(
        matches!(
            err.as_producer_error(),
            Some(Error::InvalidDaFinalizationState {
                previous_block,
                best
            }) if previous_block == prev_da_height && best == DaBlockHeight(prev_da_height.0 - 1)
        ),
        "unexpected err {err:?}"
    );
}

#[test]
fn production_fails_on_execution_error() {
    let ctx = TestContext::default().with_executor(FailingMockExecutor::new(Some(
        ExecutorError::TransactionIdCollision(Default::default()),
    )));

    let mut producer = ctx.producer();

    let err = producer
        .produce_and_execute_block(BlockHeight(1), now(), 1_000_000_000)
        .expect_err("expected failure");

    assert!(
        matches!(
            err.as_executor_error(),
            Some(ExecutorError::TransactionIdCollision { .. })
        ),
        "unexpected err {err:?}"
    );
    assert_eq!(
        err,
        ProductionError::Executor(ExecutorError::TransactionIdCollision(Bytes32::default()))
    );
    // the executor fails once only
    assert!(producer
        .produce_and_execute_block(BlockHeight(1), now(), 1_000_000_000)
        .is_ok());
}

#[test]
fn produced_header_continues_the_chain() {
    let previous = previous_block(7, 3, [1; 32]);
    let db = MockDb::new(vec![(BlockHeight(7), previous)]);
    let mut ctx = TestContext::default_from_db(db);
    ctx.relayer.best_finalized_height = DaBlockHeight(9);
    ctx.txpool = MockTxPool(vec![
        Transaction::script(5, vec![1], vec![]),
        Transaction::script(6, vec![2], vec![]),
    ]);
    let mut producer = ctx.producer();
    let result = producer
        .produce_and_execute_block(BlockHeight(8), Tai64(55), 1_000)
        .expect("a block");
    let block = &result.result().block;
    assert_eq!(block.header().height(), BlockHeight(8));
    assert_eq!(block.header().time(), Tai64(55));
    assert_eq!(block.header().da_height(), DaBlockHeight(9));
    // the mock database roots every header list in the low byte of its height
    assert_eq!(block.header().consensus.prev_root, Bytes32::new([7; 32]));
    // the pool's order is the block's order
    assert_eq!(
        block.transactions(),
        &[Transaction::script(5, vec![1], vec![]), Transaction::script(6, vec![2], vec![])][..]
    );
    assert!(result.result().skipped_transactions.is_empty());
    assert_eq!(producer.executor.executed.len(), 1);
    assert_eq!(producer.executor.executed[0].id(), block.id());
}

#[test]
fn equal_da_heights_are_accepted() {
    let previous = previous_block(1, 100, [0; 32]);
    let db = MockDb::new(vec![(BlockHeight(1), previous)]);
    let mut ctx = TestContext::default_from_db(db);
    ctx.relayer.best_finalized_height = DaBlockHeight(100);
    let mut producer = ctx.producer();
    let result = producer
        .produce_and_execute_block(BlockHeight(2), now(), 1)
        .expect("a block");
    assert_eq!(result.result().block.header().da_height(), DaBlockHeight(100));
}

#[test]
fn mock_database_keeps_the_later_of_two_blocks_at_one_height() {
    let first = previous_block(1, 1, [0; 32]);
    let second = previous_block(1, 2, [0; 32]);
    let db = MockDb::new(vec![(BlockHeight(1), first), (BlockHeight(1), second.clone())]);
    assert_eq!(db.get_block(&BlockHeight(1)), Ok(second));
    assert_eq!(
        db.get_block(&BlockHeight(2)),
        Err(StorageError::NotFound("Didn't find block for test"))
    );
    assert_eq!(db.block_header_merkle_root(&BlockHeight(0x1ff)), Ok(Bytes32::new([0xff; 32])));
}

#[test]
fn storage_error_says_what_was_missing() {
    assert_eq!(
        StorageError::NotFound("a block").message(),
        "resource was not found: a block"
    );
    assert_eq!(StorageError::Other("disk").message(), "storage failed: disk");
}

#[test]
fn mock_executor_takes_a_validated_block_as_it_is() {
    let block = PartialFuelBlock::new(PartialBlockHeader::default(), vec![]).generate(&[]);
    let id = block.id();
    let mut executor = MockExecutor::new();
    let result = executor
        .execute_without_commit(ExecutionBlock::Validation(block))
        .expect("a result");
    assert_eq!(result.result().block.id(), id);
}

#[test]
fn scheduler_drives_the_producer() {
    use_the_producer_as_the_schedulers_port();
}

fn use_the_producer_as_the_schedulers_port() {
    let db = MockDb::new(vec![(BlockHeight(1), previous_block(1, 3, [0; 32]))]);
    let mut ctx = TestContext::default_from_db(db);
    ctx.relayer.best_finalized_height = DaBlockHeight(5);
    ctx.txpool = MockTxPool(vec![Transaction::script(5, vec![1], vec![])]);
    let config = fuel_node::poa::config::Config {
        trigger: fuel_node::poa::config::Trigger::Instant,
        block_gas_limit: 1_000,
        signing_key: Some(fuel_node::poa::test_context::test_signing_key()),
        metrics: false,
        consensus_params: Default::default(),
    };
    let mut task = fuel_node::poa::service::Task::new(
        &fuel_node::blockchain::header::BlockHeader::new_block(BlockHeight(1), now()),
        config,
        fuel_node::poa::mocks::MockTransactionPool::no_tx_updates(),
        ctx.producer(),
        fuel_node::poa::mocks::MockBlockImporter::default(),
        fuel_node::poa::config::Instant(0),
        now(),
    );
    // the block at height two continues the chain and is committed
    assert_eq!(task.produce_next_block(fuel_node::poa::config::Instant(0), Tai64(now().0 + 1)), Ok(()));
    let sealed = &task.block_importer.committed[0];
    assert_eq!(sealed.entity.header().height(), BlockHeight(2));
    assert_eq!(sealed.entity.header().da_height(), DaBlockHeight(5));
    assert_eq!(sealed.entity.transactions().len(), 1);
    // the mock database has no block at height two: the next production is refused
    let refused = task.produce_next_block(fuel_node::poa::config::Instant(0), Tai64(now().0 + 2));
    assert_eq!(
        refused,
        Err(fuel_node::poa::schedule::Error::Producer(ProductionError::Storage(
            StorageError::NotFound("Didn't find block for test")
        )))
    );
    assert_eq!(task.block_importer.calls, 1);
    assert_eq!(task.schedule.last_height, BlockHeight(2));
}

#[test]
fn previous_block_gives_its_da_height_and_the_database_the_root() {
    let block = previous_block(4, 17, [9; 32]);
    assert_eq!(
        previous_info(&block, Ok(Bytes32::new([3; 32]))),
        Ok(PreviousBlockInfo { prev_root: Bytes32::new([3; 32]), da_height: DaBlockHeight(17) })
    );
    assert_eq!(
        previous_info(&block, Err(StorageError::Other("no root"))),
        Err(StorageError::Other("no root"))
    );
}
