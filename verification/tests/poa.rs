use std::collections::HashSet;

use fuel_node::blockchain::header::BlockHeader;
use fuel_node::blockchain::primitives::{BlockHeight, Bytes32, Tai64};
use fuel_node::blockchain::transaction::{ConsensusParameters, Transaction};
use fuel_node::poa::config::{Config, Duration, Instant, SecretKey, Trigger};
use fuel_node::poa::mocks::{
    take_status, MockBlockImporter, MockBlockProducer, MockTransactionPool, TxPoolContext,
};
use fuel_node::poa::ports::{ImporterError, TransactionPool};
use fuel_node::poa::schedule::{increase_time, Error, ManualProduction, RequestType, Schedule};
use fuel_node::poa::service::{seal_block, Event, Step, Task, TimedEvent};
use fuel_node::poa::test_context::{make_tx, new_service, test_signing_key, TestContextBuilder};
use fuel_node::producer::block_producer::{Error as ProducerError, ProductionError};
use fuel_node::producer::ports::StorageError;
use fuel_node::services::service::StepError;
use fuel_node::services::state::State;
use fuel_node::services::txpool::{Error as TxPoolError, TxStatus};
use rand::rngs::StdRng;
use rand::{RngCore, SeedableRng};

const START: Instant = Instant(1_000_000);

fn now_tai() -> Tai64 {
    Tai64(1_700_000_000)
}

fn secret_key(rng: &mut StdRng) -> SecretKey {
    let mut bytes = [0u8; 32];
    rng.fill_bytes(&mut bytes);
    SecretKey { bytes }
}

fn config(trigger: Trigger, block_gas_limit: u64, key: SecretKey) -> Config {
    Config {
        trigger,
        block_gas_limit,
        signing_key: Some(key),
        metrics: false,
        consensus_params: Default::default(),
    }
}

fn hybrid() -> Trigger {
    Trigger::Hybrid {
        min_block_time: Duration::from_millis(100),
        max_tx_idle_time: Duration::from_millis(50),
        max_block_time: Duration::from_millis(1000),
    }
}

type MockTask = Task<MockTransactionPool, MockBlockProducer, MockBlockImporter>;

fn task(trigger: Trigger, txpool: MockTransactionPool, producer: MockBlockProducer) -> MockTask {
    let mut rng = StdRng::seed_from_u64(2322);
    Task::new(
        &BlockHeader::new_block(BlockHeight(1), now_tai()),
        config(trigger, 1_000_000, secret_key(&mut rng)),
        txpool,
        producer,
        MockBlockImporter::default(),
        START,
        now_tai(),
    )
}

#[test]
fn remove_skipped_transactions() {
    // The test verifies that if `BlockProducer` returns skipped transactions, they would
    // be propagated to `TxPool` for removal.
    let mut rng = StdRng::seed_from_u64(2322);
    let secret_key = secret_key(&mut rng);

    const TX_NUM: usize = 100;
    let skipped_transactions: Vec<_> = (0..TX_NUM).map(|_| make_tx(&mut rng)).collect();

    let block_producer = MockBlockProducer::new(skipped_transactions.clone(), None);
    let block_importer = MockBlockImporter::default();
    let txpool = MockTransactionPool::no_tx_updates();

    let config = Config {
        trigger: Trigger::Instant,
        block_gas_limit: 1000000,
        signing_key: Some(secret_key),
        metrics: false,
        consensus_params: Default::default(),
    };
    let mut task = Task::new(
        &BlockHeader::new_block(BlockHeight(1), now_tai()),
        config,
        txpool,
        block_producer,
        block_importer,
        START,
        now_tai(),
    );

    assert!(task.produce_next_block(START, now_tai()).is_ok());

    // the producer and the importer were called once each
    assert_eq!(task.block_producer.requests.len(), 1);
    assert_eq!(task.block_importer.calls, 1);

    // Transform transactions into ids.
    let skipped_transactions: Vec<_> = skipped_transactions
        .iter()
        .map(|tx| tx.id(&ConsensusParameters::default()))
        .collect();

    // Check that all transactions are unique.
    let expected_skipped_ids_set: HashSet<_> = skipped_transactions.clone().into_iter().collect();
    assert_eq!(expected_skipped_ids_set.len(), TX_NUM);

    // Check that `TxPool::remove_txs` was called once, with the same ids in the same order.
    assert_eq!(task.txpool.removed.len(), 1);
    let skipped_ids = &task.txpool.removed[0];
    assert_eq!(skipped_ids.len(), TX_NUM);
    assert_eq!(skipped_transactions.len(), TX_NUM);
    assert_eq!(&skipped_transactions, skipped_ids);
}

#[test]
fn does_not_produce_when_txpool_empty_in_instant_mode() {
    // verify the PoA service doesn't trigger empty blocks to be produced when there are
    // irrelevant updates from the txpool
    let mut task = task(
        Trigger::Instant,
        MockTransactionPool::no_tx_updates(),
        MockBlockProducer::default(),
    );
    let before = task.schedule;

    // simulate some txpool events to see if any block production is erroneously triggered
    task.on_txpool_event(TxStatus::Submitted, START, now_tai()).unwrap();
    task.on_txpool_event(TxStatus::Completed, START, now_tai()).unwrap();
    task.on_txpool_event(
        TxStatus::SqueezedOut {
            reason: TxPoolError::NoMetadata,
        },
        START,
        now_tai(),
    )
    .unwrap();

    assert!(task.block_producer.requests.is_empty(), "Block production should not be called");
    assert_eq!(task.block_importer.calls, 0, "Block importer should not be called");
    assert!(task.txpool.removed.is_empty());
    assert_eq!(task.schedule, before);
}

#[test]
fn hybrid_production_doesnt_produce_empty_blocks_when_txpool_is_empty() {
    // verify the PoA service doesn't alter the hybrid block timing when
    // receiving txpool events if txpool is actually empty
    let mut rng = StdRng::seed_from_u64(2322);
    let secret_key = secret_key(&mut rng);

    const TX_IDLE_TIME_MS: u64 = 50u64;

    let config = Config {
        trigger: Trigger::Hybrid {
            min_block_time: Duration::from_millis(100),
            max_tx_idle_time: Duration::from_millis(TX_IDLE_TIME_MS),
            max_block_time: Duration::from_millis(1000),
        },
        block_gas_limit: 1000000,
        signing_key: Some(secret_key),
        metrics: false,
        consensus_params: Default::default(),
    };
    let mut service = new_service(
        &BlockHeader::new_block(BlockHeight(1), now_tai()),
        config,
        MockTransactionPool::no_tx_updates(),
        MockBlockProducer::default(),
        MockBlockImporter::default(),
        START,
        now_tai(),
    );
    service.start().unwrap();
    assert_eq!(service.state(), State::Running);

    // simulate some txpool events to see if any block production is erroneously triggered
    for status in [
        TxStatus::Submitted,
        TxStatus::Completed,
        TxStatus::SqueezedOut {
            reason: TxPoolError::NoMetadata,
        },
    ] {
        let went_on = service
            .step(TimedEvent { event: Event::TxPool(Some(status)), now: START, now_tai: now_tai() })
            .unwrap();
        assert!(went_on);
    }

    // wait max_tx_idle_time - causes block production to occur if
    // pending txs > 0 is not checked.
    let later = START.after(Duration::from_millis(TX_IDLE_TIME_MS));
    assert!(!service.task.schedule.timer_due(later));
    assert_eq!(
        service.task.schedule.deadline,
        Some(START.after(Duration::from_millis(1000)))
    );
    assert_eq!(service.state(), State::Running);

    assert!(service.task.block_producer.requests.is_empty(), "Block production should not be called");
    assert_eq!(service.task.block_importer.calls, 0, "Block importer should not be called");

    service.stop_and_await();
    assert!(service.state().stopped());
}

fn manual_production_case(
    start_time: Tai64,
    number_of_blocks: u32,
    times: Vec<Tai64>,
    trigger: Trigger,
    num_txns: usize,
) {
    let mut rng = StdRng::seed_from_u64(1234u64);
    let mut ctx_builder = TestContextBuilder::new();
    ctx_builder.with_config(Config {
        trigger,
        block_gas_limit: 100_000,
        signing_key: Some(test_signing_key()),
        metrics: false,
        consensus_params: Default::default(),
    });

    // initialize txpool with some txs
    let TxPoolContext {
        txpool,
        mut status_sender,
    } = MockTransactionPool::new_with_txs((0..num_txns).map(|_| make_tx(&mut rng)).collect());
    ctx_builder.with_txpool(txpool);
    ctx_builder.with_importer(MockBlockImporter::default());
    ctx_builder.with_producer(MockBlockProducer::default());
    let mut ctx = ctx_builder.build(START, now_tai());

    ctx.service
        .task
        .manually_produce_block(Some(start_time), number_of_blocks, START)
        .unwrap();
    for _ in 0..num_txns {
        status_sender.send_replace(Some(TxStatus::Submitted));
    }

    assert_eq!(ctx.service.task.block_importer.committed.len(), times.len());
    for (t, sealed) in times.into_iter().zip(ctx.service.task.block_importer.committed.iter()) {
        let block_time = sealed.entity.header().time();
        assert_eq!(t, block_time);
    }
    let heights: Vec<u32> = ctx
        .service
        .task
        .block_producer
        .requests
        .iter()
        .map(|request| request.0 .0)
        .collect();
    let expected: Vec<u32> = (2..2 + number_of_blocks).collect();
    assert_eq!(heights, expected);

    // Stop
    assert_eq!(ctx.stop(), State::Stopped);
}

fn interval() -> Trigger {
    Trigger::Interval { block_time: Duration::from_secs(10) }
}

fn shifted(by: u64) -> Tai64 {
    Tai64(now_tai().0 + by)
}

#[test]
fn can_manually_produce_block() {
    manual_production_case(now_tai(), 10, vec![now_tai(); 10], Trigger::Never, 0);
}

#[test]
fn can_manually_produce_block_instant_at_now_without_transactions() {
    manual_production_case(now_tai(), 10, vec![now_tai(); 10], Trigger::Instant, 0);
}

#[test]
fn can_manually_produce_block_interval_at_now_without_transactions() {
    manual_production_case(
        now_tai(),
        3,
        vec![now_tai(), shifted(10), shifted(20)],
        interval(),
        0,
    );
}

#[test]
fn can_manually_produce_block_never_later_without_transactions() {
    manual_production_case(shifted(100), 10, vec![shifted(100); 10], Trigger::Never, 0);
}

#[test]
fn can_manually_produce_block_instant_later_without_transactions() {
    manual_production_case(shifted(100), 10, vec![shifted(100); 10], Trigger::Instant, 0);
}

#[test]
fn can_manually_produce_block_interval_later_without_transactions() {
    manual_production_case(
        shifted(100),
        3,
        vec![shifted(100), shifted(110), shifted(120)],
        interval(),
        0,
    );
}

#[test]
fn can_manually_produce_block_never_at_now_with_transactions() {
    manual_production_case(now_tai(), 10, vec![now_tai(); 10], Trigger::Never, 10);
}

#[test]
fn can_manually_produce_block_instant_at_now_with_transactions() {
    manual_production_case(now_tai(), 10, vec![now_tai(); 10], Trigger::Instant, 10);
}

#[test]
fn can_manually_produce_block_interval_at_now_with_transactions() {
    manual_production_case(
        now_tai(),
        3,
        vec![now_tai(), shifted(10), shifted(20)],
        interval(),
        10,
    );
}

#[test]
fn can_manually_produce_block_never_later_with_transactions() {
    manual_production_case(shifted(100), 10, vec![shifted(100); 10], Trigger::Never, 10);
}

#[test]
fn can_manually_produce_block_instant_later_with_transactions() {
    manual_production_case(shifted(100), 10, vec![shifted(100); 10], Trigger::Instant, 10);
}

#[test]
fn can_manually_produce_block_interval_later_with_transactions() {
    manual_production_case(
        shifted(100),
        3,
        vec![shifted(100), shifted(110), shifted(120)],
        interval(),
        10,
    );
}

#[test]
fn manual_production_of_three_blocks_keeps_the_given_time() {
    let mut task = task(
        Trigger::Instant,
        MockTransactionPool::no_tx_updates(),
        MockBlockProducer::default(),
    );
    let t0 = Tai64(now_tai().0 + 7);
    task.manually_produce_block(Some(t0), 3, START).unwrap();
    let committed: Vec<(BlockHeight, Tai64)> = task
        .block_importer
        .committed
        .iter()
        .map(|sealed| (sealed.entity.header().height(), sealed.entity.header().time()))
        .collect();
    assert_eq!(
        committed,
        vec![(BlockHeight(2), t0), (BlockHeight(3), t0), (BlockHeight(4), t0)]
    );
    assert_eq!(task.schedule.last_height, BlockHeight(4));
    assert_eq!(task.schedule.last_timestamp, t0);
    assert_eq!(task.txpool.removed, vec![Vec::<Bytes32>::new(); 3]);
}

#[test]
fn manual_production_without_start_time_uses_the_policy_step() {
    let mut task = task(
        hybrid(),
        MockTransactionPool::no_tx_updates(),
        MockBlockProducer::default(),
    );
    // min_block_time is a tenth of a second: no whole second goes by
    task.produce_manual_blocks(ManualProduction { start_time: None, number_of_blocks: 2 }, START)
        .unwrap();
    let times: Vec<Tai64> =
        task.block_producer.requests.iter().map(|request| request.1).collect();
    assert_eq!(times, vec![now_tai(), now_tai()]);

    let mut task = task_with_interval_of_three_seconds();
    task.produce_manual_blocks(ManualProduction { start_time: None, number_of_blocks: 2 }, START)
        .unwrap();
    let times: Vec<Tai64> =
        task.block_producer.requests.iter().map(|request| request.1).collect();
    assert_eq!(times, vec![shifted(3), shifted(6)]);
}

fn task_with_interval_of_three_seconds() -> MockTask {
    task(
        Trigger::Interval { block_time: Duration::from_secs(3) },
        MockTransactionPool::no_tx_updates(),
        MockBlockProducer::default(),
    )
}

#[test]
fn manual_production_of_no_blocks_changes_nothing() {
    let mut task = task_with_interval_of_three_seconds();
    let before = task.schedule;
    task.manually_produce_block(Some(shifted(5)), 0, START).unwrap();
    assert_eq!(task.schedule, before);
    assert!(task.block_producer.requests.is_empty());
}

#[test]
fn instant_trigger_produces_when_a_transaction_waits() {
    let TxPoolContext { txpool, .. } =
        MockTransactionPool::new_with_txs(vec![Transaction::script(10, vec![], vec![])]);
    let mut task = task(Trigger::Instant, txpool, MockBlockProducer::default());
    let later = Tai64(now_tai().0 + 4);
    task.on_txpool_event(TxStatus::Submitted, Instant(START.0 + 4000), later).unwrap();
    assert_eq!(
        task.block_producer.requests,
        vec![(BlockHeight(2), later, 1_000_000)]
    );
    assert_eq!(task.block_importer.calls, 1);
    assert_eq!(task.schedule.last_height, BlockHeight(2));
    assert_eq!(task.schedule.last_timestamp, later);
    assert_eq!(task.schedule.last_block_created, Instant(START.0 + 4000));
    assert_eq!(task.schedule.deadline, None);
    // the seal is the authority's signature over the block's identifier
    let sealed = &task.block_importer.committed[0];
    assert_eq!(Ok(sealed.consensus), seal_block(&task.signing_key, &sealed.entity));
}

#[test]
fn trigger_time_does_not_go_back() {
    let TxPoolContext { txpool, .. } =
        MockTransactionPool::new_with_txs(vec![Transaction::script(10, vec![], vec![])]);
    let mut task = task(Trigger::Instant, txpool, MockBlockProducer::default());
    // the wall clock reads less than the last block's time
    let earlier = Tai64(now_tai().0 - 100);
    task.on_txpool_event(TxStatus::Submitted, Instant(START.0 + 2500), earlier).unwrap();
    // two whole seconds went by on the clock that never goes back
    assert_eq!(task.block_producer.requests[0].1, Tai64(now_tai().0 + 2));
}

#[test]
fn never_and_interval_triggers_ignore_the_pool() {
    for trigger in [Trigger::Never, interval()] {
        let TxPoolContext { txpool, .. } =
            MockTransactionPool::new_with_txs(vec![Transaction::script(10, vec![], vec![])]);
        let mut task = task(trigger, txpool, MockBlockProducer::default());
        let before = task.schedule;
        task.on_txpool_event(TxStatus::Submitted, START, now_tai()).unwrap();
        assert!(task.block_producer.requests.is_empty());
        assert_eq!(task.schedule, before);
    }
}

#[test]
fn hybrid_trigger_restarts_the_idle_timer_on_a_waiting_transaction() {
    let TxPoolContext { txpool, .. } =
        MockTransactionPool::new_with_txs(vec![Transaction::script(10, vec![], vec![])]);
    let mut task = task(hybrid(), txpool, MockBlockProducer::default());
    assert_eq!(task.schedule.deadline, Some(Instant(START.0 + 1000)));

    // early: min_block_time has not gone by when the pool has been quiet long enough
    task.on_txpool_event(TxStatus::Submitted, Instant(START.0 + 10), now_tai()).unwrap();
    assert_eq!(task.schedule.deadline, Some(Instant(START.0 + 100)));
    // later: the quiet time counts from the last transaction
    task.on_txpool_event(TxStatus::Submitted, Instant(START.0 + 80), now_tai()).unwrap();
    assert_eq!(task.schedule.deadline, Some(Instant(START.0 + 130)));
    // a status that speaks of no new transaction leaves the timer alone
    task.on_txpool_event(TxStatus::Completed, Instant(START.0 + 90), now_tai()).unwrap();
    let squeezed = TxStatus::SqueezedOut { reason: TxPoolError::NotInsertedLimitHit };
    task.on_txpool_event(squeezed, Instant(START.0 + 95), now_tai()).unwrap();
    assert_eq!(task.schedule.deadline, Some(Instant(START.0 + 130)));
    // never later than max_block_time after the last block
    task.on_txpool_event(TxStatus::Submitted, Instant(START.0 + 990), now_tai()).unwrap();
    assert_eq!(task.schedule.deadline, Some(Instant(START.0 + 1000)));
    assert!(task.block_producer.requests.is_empty());

    assert!(!task.schedule.timer_due(Instant(START.0 + 999)));
    assert!(task.schedule.timer_due(Instant(START.0 + 1000)));
    task.on_timer(Instant(START.0 + 1000), Tai64(now_tai().0 + 1)).unwrap();
    assert_eq!(task.block_producer.requests.len(), 1);
    // a transaction still waits: quiet time or min_block_time, whichever is longer
    assert_eq!(task.schedule.deadline, Some(Instant(START.0 + 1100)));
}

#[test]
fn hybrid_trigger_produces_a_full_block_once_min_block_time_has_gone_by() {
    let full = vec![
        Transaction::script(600_000, vec![], vec![]),
        Transaction::script(600_000, vec![1], vec![]),
    ];
    let TxPoolContext { txpool, .. } = MockTransactionPool::new_with_txs(full);
    assert_eq!(txpool.total_consumable_gas(), 1_200_000);
    let mut task = task(hybrid(), txpool, MockBlockProducer::default());
    // exactly min_block_time after the last block is too early
    task.on_txpool_event(TxStatus::Submitted, Instant(START.0 + 100), now_tai()).unwrap();
    assert!(task.block_producer.requests.is_empty());
    // a full block does not wait for a new transaction to be told of
    task.on_txpool_event(TxStatus::Completed, Instant(START.0 + 101), now_tai()).unwrap();
    assert_eq!(task.block_producer.requests.len(), 1);
    // more than a block still waits: the next one is due after min_block_time
    assert_eq!(task.schedule.deadline, Some(Instant(START.0 + 201)));
}

#[test]
fn interval_trigger_produces_on_the_timer_with_an_empty_pool() {
    let mut task = task(interval(), MockTransactionPool::no_tx_updates(), MockBlockProducer::default());
    assert_eq!(task.schedule.deadline, Some(Instant(START.0 + 10_000)));
    task.on_timer(Instant(START.0 + 10_000), Tai64(now_tai().0 + 10)).unwrap();
    assert_eq!(
        task.block_producer.requests,
        vec![(BlockHeight(2), Tai64(now_tai().0 + 10), 1_000_000)]
    );
    assert_eq!(task.schedule.deadline, Some(Instant(START.0 + 20_000)));
}

#[test]
fn timer_is_ignored_where_no_timer_is_set() {
    for trigger in [Trigger::Never, Trigger::Instant] {
        let mut task = task(trigger, MockTransactionPool::no_tx_updates(), MockBlockProducer::default());
        assert_eq!(task.schedule.deadline, None);
        task.on_timer(START, now_tai()).unwrap();
        assert!(task.block_producer.requests.is_empty());
    }
}

#[test]
fn production_needs_a_signing_key() {
    let mut task = Task::new(
        &BlockHeader::new_block(BlockHeight(1), now_tai()),
        Config::default(),
        MockTransactionPool::no_tx_updates(),
        MockBlockProducer::default(),
        MockBlockImporter::default(),
        START,
        now_tai(),
    );
    assert_eq!(task.produce_next_block(START, now_tai()), Err(Error::NoSigningKey));
    assert!(task.block_producer.requests.is_empty());
}

#[test]
fn zero_is_no_signing_key() {
    let mut task = Task::new(
        &BlockHeader::new_block(BlockHeight(1), now_tai()),
        config(Trigger::Instant, 1, SecretKey { bytes: [0u8; 32] }),
        MockTransactionPool::no_tx_updates(),
        MockBlockProducer::default(),
        MockBlockImporter::default(),
        START,
        now_tai(),
    );
    assert_eq!(task.produce_next_block(START, now_tai()), Err(Error::InvalidSigningKey));
    // the block was produced and the pool was told, but nothing was committed
    assert_eq!(task.block_producer.requests.len(), 1);
    assert_eq!(task.txpool.removed.len(), 1);
    assert_eq!(task.block_importer.calls, 0);
    assert_eq!(task.schedule.last_height, BlockHeight(1));
}

#[test]
fn block_time_must_not_lie_before_the_last_block() {
    let mut task = task(Trigger::Never, MockTransactionPool::no_tx_updates(), MockBlockProducer::default());
    let outcome = task.manually_produce_block(Some(Tai64(now_tai().0 - 1)), 1, START);
    assert_eq!(outcome, Err(Error::TimestampNotMonotonic));
    assert!(task.block_producer.requests.is_empty());
    assert_eq!(task.produce_block(BlockHeight(2), now_tai(), START), Ok(()));
}

#[test]
fn producer_failure_is_surfaced_and_nothing_is_committed() {
    let failure = ProductionError::Producer(ProducerError::GenesisBlock);
    let mut task = task(
        Trigger::Instant,
        MockTransactionPool::no_tx_updates(),
        MockBlockProducer::new(vec![], Some(failure)),
    );
    let before = task.schedule;
    assert_eq!(task.produce_next_block(START, now_tai()), Err(Error::Producer(failure)));
    assert_eq!(task.block_producer.requests.len(), 1);
    assert!(task.txpool.removed.is_empty());
    assert_eq!(task.block_importer.calls, 0);
    assert_eq!(task.schedule, before);
}

#[test]
fn importer_failure_is_surfaced_and_the_schedule_stays() {
    let failure = ImporterError::Storage(StorageError::Other("disk"));
    let mut rng = StdRng::seed_from_u64(2322);
    let mut task = Task::new(
        &BlockHeader::new_block(BlockHeight(1), now_tai()),
        config(Trigger::Instant, 1_000_000, secret_key(&mut rng)),
        MockTransactionPool::no_tx_updates(),
        MockBlockProducer::default(),
        MockBlockImporter::new(Some(failure)),
        START,
        now_tai(),
    );
    let before = task.schedule;
    assert_eq!(task.produce_next_block(START, now_tai()), Err(Error::Importer(failure)));
    assert_eq!(task.block_importer.calls, 1);
    assert!(task.block_importer.committed.is_empty());
    assert_eq!(task.schedule, before);
    // no retry: the next trigger asks the producer again
    assert_eq!(task.produce_next_block(START, now_tai()), Err(Error::Importer(failure)));
    assert_eq!(task.block_producer.requests.len(), 2);
}

#[test]
fn height_and_time_overflow_are_errors() {
    let mut rng = StdRng::seed_from_u64(1);
    let mut task = Task::new(
        &BlockHeader::new_block(BlockHeight(u32::MAX), now_tai()),
        config(Trigger::Instant, 1, secret_key(&mut rng)),
        MockTransactionPool::no_tx_updates(),
        MockBlockProducer::default(),
        MockBlockImporter::default(),
        START,
        now_tai(),
    );
    assert_eq!(task.produce_next_block(START, now_tai()), Err(Error::HeightOverflow));
    assert_eq!(increase_time(Tai64(u64::MAX), Duration::from_secs(1)), Err(Error::TimeOverflow));
    assert_eq!(increase_time(Tai64(u64::MAX), Duration::from_millis(999)), Ok(Tai64(u64::MAX)));
    assert_eq!(increase_time(Tai64(5), Duration::from_millis(2500)), Ok(Tai64(7)));
}

#[test]
fn events_are_taken_one_at_a_time() {
    let TxPoolContext { txpool, .. } =
        MockTransactionPool::new_with_txs(vec![Transaction::script(10, vec![], vec![])]);
    let mut task = task(Trigger::Instant, txpool, MockBlockProducer::default());
    let go_on = Ok(Step { should_continue: true, response: None });
    for i in 0..5u64 {
        let status = Event::TxPool(Some(TxStatus::Submitted));
        assert_eq!(task.on_event(status, Instant(START.0 + i), now_tai()), go_on);
    }
    let heights: Vec<u32> =
        task.block_producer.requests.iter().map(|request| request.0 .0).collect();
    assert_eq!(heights, vec![2, 3, 4, 5, 6]);
    let committed: Vec<u32> = task
        .block_importer
        .committed
        .iter()
        .map(|sealed| sealed.entity.header().height().0)
        .collect();
    assert_eq!(committed, vec![2, 3, 4, 5, 6]);

    assert_eq!(
        task.on_event(Event::Shutdown, START, now_tai()),
        Ok(Step { should_continue: false, response: None })
    );
    assert_eq!(
        task.on_event(Event::TxPool(None), START, now_tai()),
        Ok(Step { should_continue: false, response: None })
    );
    let request = ManualProduction { start_time: Some(Tai64(0)), number_of_blocks: 1 };
    assert_eq!(
        task.on_event(Event::ManualBlocks(request), START, now_tai()),
        Ok(Step { should_continue: true, response: Some(Err(Error::TimestampNotMonotonic)) })
    );
}

#[test]
fn service_hands_on_a_failed_step_and_runs_on() {
    let failure = ProductionError::Storage(StorageError::NotFound("block"));
    let TxPoolContext { txpool, .. } =
        MockTransactionPool::new_with_txs(vec![Transaction::script(10, vec![], vec![])]);
    let mut builder = TestContextBuilder::new();
    builder.with_config(config(Trigger::Instant, 10, test_signing_key()));
    builder.with_txpool(txpool);
    builder.with_producer(MockBlockProducer::new(vec![], Some(failure)));
    let mut ctx = builder.build(START, now_tai());
    let event = TimedEvent {
        event: Event::TxPool(Some(TxStatus::Submitted)),
        now: START,
        now_tai: now_tai(),
    };
    assert_eq!(ctx.service.step(event), Err(StepError::Task(Error::Producer(failure))));
    assert_eq!(ctx.service.state(), State::Running);
    let shutdown = TimedEvent { event: Event::Shutdown, now: START, now_tai: now_tai() };
    assert_eq!(ctx.service.step(shutdown), Ok(false));
    assert_eq!(ctx.service.state(), State::Stopped);
    assert_eq!(ctx.service.step(shutdown), Err(StepError::NotRunning));
}

#[test]
fn mock_pool_counts_and_removes_what_is_named() {
    let txs = vec![
        Transaction::script(1, vec![], vec![]),
        Transaction::script(2, vec![], vec![]),
        Transaction::script(3, vec![], vec![]),
    ];
    let params = ConsensusParameters::default();
    let first = txs[0].id(&params);
    let third = txs[2].id(&params);
    let TxPoolContext { mut txpool, status_sender } = MockTransactionPool::new_with_txs(txs.clone());
    assert_eq!(status_sender.borrow(), &None);
    assert_eq!(txpool.pending_number(), 3);
    assert_eq!(txpool.total_consumable_gas(), 6);
    // the transaction that is named leaves, the others stay
    assert_eq!(txpool.remove_txs(vec![first]), vec![txs[0].clone()]);
    assert_eq!(txpool.pending_number(), 2);
    assert_eq!(txpool.total_consumable_gas(), 5);
    assert_eq!(txpool.txs, vec![txs[1].clone(), txs[2].clone()]);
    // one that has left already is not found again
    assert_eq!(txpool.remove_txs(vec![first, third]), vec![txs[2].clone()]);
    assert_eq!(txpool.txs, vec![txs[1].clone()]);
    // no name, nothing leaves
    assert!(txpool.remove_txs(vec![]).is_empty());
    assert_eq!(txpool.pending_number(), 1);
    assert_eq!(txpool.removed, vec![vec![first], vec![first, third], vec![]]);
}

#[test]
fn mock_pool_sums_gas_up_to_the_ceiling() {
    let txs = vec![
        Transaction::script(1, vec![], vec![]),
        Transaction::script(u64::MAX, vec![], vec![]),
    ];
    let TxPoolContext { txpool, .. } = MockTransactionPool::new_with_txs(txs);
    assert_eq!(txpool.total_consumable_gas(), u64::MAX);
}

#[test]
fn a_status_is_taken_once() {
    let TxPoolContext { mut status_sender, .. } = MockTransactionPool::new_with_txs(vec![]);
    assert_eq!(take_status(&mut status_sender), None);
    let watcher = status_sender.subscribe();
    status_sender.send_replace(Some(TxStatus::Submitted));
    assert!(status_sender.has_changed(&watcher));
    assert_eq!(take_status(&mut status_sender), Some(TxStatus::Submitted));
    assert_eq!(status_sender.borrow(), &None);
    assert_eq!(take_status(&mut status_sender), None);
}

#[test]
fn built_context_takes_the_defaults_for_what_was_not_chosen() {
    let mut ctx = TestContextBuilder::new().build(START, now_tai());
    assert_eq!(ctx.service.state(), State::Running);
    let task = &ctx.service.task;
    assert_eq!(task.schedule, Schedule::new(Trigger::Instant, 1_000_000, BlockHeight(1), now_tai(), START, now_tai()));
    assert_eq!(task.signing_key, None);
    assert_eq!(task.consensus_params, ConsensusParameters::default());
    assert_eq!(task.txpool.pending_number(), 0);
    assert!(task.txpool.removed.is_empty());
    assert!(task.block_producer.requests.is_empty());
    assert!(task.block_producer.skipped.is_empty());
    assert_eq!(task.block_producer.failure, None);
    assert!(task.block_importer.committed.is_empty());
    assert_eq!(task.block_importer.calls, 0);
    assert_eq!(ctx.stop(), State::Stopped);
    // a second stop finds the scheduler at rest and leaves it there
    assert_eq!(ctx.stop(), State::Stopped);
    assert_eq!(ctx.service.task.block_importer.calls, 0);
}

#[test]
fn drawn_transactions_stay_below_the_gas_ceiling() {
    let mut rng = StdRng::seed_from_u64(7);
    for _ in 0..200 {
        let tx = make_tx(&mut rng);
        assert!(tx.gas_limit() >= 1);
        assert!(tx.gas_limit() < ConsensusParameters::default().max_gas_per_tx);
    }
    assert_eq!(test_signing_key(), test_signing_key());
}

#[test]
fn new_schedule_places_the_last_block_on_the_clock() {
    // the last block is five seconds old
    let schedule =
        Schedule::new(hybrid(), 1, BlockHeight(3), Tai64(now_tai().0 - 5), START, now_tai());
    assert_eq!(schedule.last_block_created, Instant(START.0 - 5000));
    // max_block_time went by long ago
    assert_eq!(schedule.deadline, Some(Instant(START.0 - 4000)));
    assert!(schedule.timer_due(START));
    // the clock does not reach back that far
    let schedule = Schedule::new(interval(), 1, BlockHeight(3), Tai64(0), Instant(10), now_tai());
    assert_eq!(schedule.last_block_created, Instant(10));
    assert_eq!(schedule.deadline, Some(Instant(10_010)));
    assert_eq!(schedule.next_height(), Some(BlockHeight(4)));
    assert_eq!(
        schedule.next_time(RequestType::Manual, Instant(10), now_tai()),
        Ok(Tai64(10))
    );
    assert_eq!(
        schedule.next_time(RequestType::Trigger, Instant(10), now_tai()),
        Ok(now_tai())
    );
}
