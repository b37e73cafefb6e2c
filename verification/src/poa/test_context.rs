//! A scheduler over stand-in ports, ready to be put to a scenario.

use vstd::prelude::*;
use crate::blockchain::header::BlockHeader;
use crate::blockchain::primitives::{BlockHeight, Tai64};
use crate::blockchain::transaction::{ConsensusParameters, Transaction, DEFAULT_MAX_GAS_PER_TX};
use crate::outside::{draw_in_range, draw_secret_key, public_key_of, seeded_rng};
use crate::poa::config::{Config, Instant, SecretKey, Trigger, DEFAULT_BLOCK_GAS_LIMIT};
use crate::poa::mocks::{MockBlockImporter, MockBlockProducer, MockTransactionPool};
use crate::poa::ports::{BlockImporter, BlockProducer, TransactionPool};
use crate::poa::schedule::{Error, ManualProduction, RequestType, Schedule};
use crate::poa::service::{Task, TaskView};
use crate::services::service::Service;
use crate::services::state::{State, StateView};

verus! {

/// The scheduler as a service.
pub type PoaService<T, B, I> = Service<Task<T, B, I>>;

/// A scheduler at rest that will start at `now` on top of the block with
/// header `last_block`.
pub fn new_service<T, B, I>(
    last_block: &BlockHeader,
    config: Config,
    txpool: T,
    block_producer: B,
    block_importer: I,
    now: Instant,
    now_tai: Tai64,
) -> (service: PoaService<T, B, I>) where
    T: TransactionPool,
    B: BlockProducer,
    I: BlockImporter<Database = B::Database>,

    ensures
        service.runner.spec_state() == StateView::Stopped,
        service.history@.len() == 0,
        service.task.schedule == Schedule::spec_new(
            config.trigger,
            config.block_gas_limit,
            last_block.consensus.height,
            last_block.consensus.time,
            now,
            now_tai,
        ),
        service.task.signing_key == config.signing_key,
        service.task.consensus_params == config.consensus_params,
        service.task.txpool == txpool,
        service.task.block_producer == block_producer,
        service.task.block_importer == block_importer,
        service.task@.productions.len() == 0,
        service.task@.commits.len() == 0,
        service.task@.removals.len() == 0,
        service.task@.surveys.len() == 0,
{
    Service::new(Task::new(last_block, config, txpool, block_producer, block_importer, now, now_tai))
}

/// Collects the parts of a scenario; what is not given is filled in.
pub struct TestContextBuilder {
    /// The settings, where they were chosen.
    pub config: Option<Config>,
    /// The pool, where one was chosen.
    pub txpool: Option<MockTransactionPool>,
    /// The importer, where one was chosen.
    pub importer: Option<MockBlockImporter>,
    /// The producer, where one was chosen.
    pub producer: Option<MockBlockProducer>,
}

/// A running scheduler over stand-in ports.
pub struct TestContext {
    /// The scheduler as a service.
    pub service: PoaService<MockTransactionPool, MockBlockProducer, MockBlockImporter>,
}

impl TestContextBuilder {
    /// A builder with nothing chosen.
    pub fn new() -> (builder: Self)
        ensures
            builder.config.is_none(),
            builder.txpool.is_none(),
            builder.importer.is_none(),
            builder.producer.is_none(),
    {
        TestContextBuilder { config: None, txpool: None, importer: None, producer: None }
    }

    /// Chooses the settings.
    pub fn with_config(&mut self, config: Config)
        ensures
            final(self).config == Some(config),
            final(self).txpool == old(self).txpool,
            final(self).importer == old(self).importer,
            final(self).producer == old(self).producer,
    {
        self.config = Some(config);
    }

    /// Chooses the pool.
    pub fn with_txpool(&mut self, txpool: MockTransactionPool)
        ensures
            final(self).txpool == Some(txpool),
            final(self).config == old(self).config,
            final(self).importer == old(self).importer,
            final(self).producer == old(self).producer,
    {
        self.txpool = Some(txpool);
    }

    /// Chooses the importer.
    pub fn with_importer(&mut self, importer: MockBlockImporter)
        ensures
            final(self).importer == Some(importer),
            final(self).config == old(self).config,
            final(self).txpool == old(self).txpool,
            final(self).producer == old(self).producer,
    {
        self.importer = Some(importer);
    }

    /// Chooses the producer.
    pub fn with_producer(&mut self, producer: MockBlockProducer)
        ensures
            final(self).producer == Some(producer),
            final(self).config == old(self).config,
            final(self).txpool == old(self).txpool,
            final(self).importer == old(self).importer,
    {
        self.producer = Some(producer);
    }

    /// The settings that the scheduler is built with: those chosen, or the
    /// default ones.
    pub open spec fn settings(self) -> Config {
        match self.config {
            Some(config) => config,
            None => Config {
                trigger: Trigger::Instant,
                block_gas_limit: DEFAULT_BLOCK_GAS_LIMIT,
                signing_key: None,
                metrics: false,
                consensus_params: ConsensusParameters::standard(),
            },
        }
    }

    /// Starts a scheduler at `now` on top of a block at height one and time
    /// `now_tai`, over the parts that were chosen. What was not chosen is
    /// the default: the default settings, a producer that gives a block for
    /// every request, an importer that commits everything and an empty
    /// pool. The scheduler runs, and nothing was asked of its ports yet.
    pub fn build(self, now: Instant, now_tai: Tai64) -> (context: TestContext)
        ensures
            context.service.runner.spec_state() == StateView::Running,
            context.service.history@.len() == 0,
            context.service.task.schedule == Schedule::spec_new(
                self.settings().trigger,
                self.settings().block_gas_limit,
                BlockHeight(1),
                now_tai,
                now,
                now_tai,
            ),
            context.service.task.signing_key == self.settings().signing_key,
            context.service.task.consensus_params == self.settings().consensus_params,
            match self.txpool {
                Some(pool) => context.service.task.txpool == pool,
                None => context.service.task.txpool.txs@.len() == 0
                    && context.service.task.txpool.removed@.len() == 0
                    && context.service.task.txpool.params == ConsensusParameters::standard(),
            },
            match self.producer {
                Some(producer) => context.service.task.block_producer == producer,
                None => context.service.task.block_producer.skipped@.len() == 0
                    && context.service.task.block_producer.failure.is_none()
                    && context.service.task.block_producer.requests@.len() == 0,
            },
            match self.importer {
                Some(importer) => context.service.task.block_importer == importer,
                None => context.service.task.block_importer.failure.is_none()
                    && context.service.task.block_importer.committed@.len() == 0
                    && context.service.task.block_importer.calls == 0,
            },
            context.service.task@.productions.len() == 0,
            context.service.task@.commits.len() == 0,
            context.service.task@.removals.len() == 0,
            context.service.task@.surveys.len() == 0,
    {
        let config = match self.config {
            Some(config) => config,
            None => Config::default(),
        };
        let producer = match self.producer {
            Some(producer) => producer,
            None => MockBlockProducer::default(),
        };
        let importer = match self.importer {
            Some(importer) => importer,
            None => MockBlockImporter::default(),
        };
        let txpool = match self.txpool {
            Some(txpool) => txpool,
            None => MockTransactionPool::no_tx_updates(),
        };
        let last_block = BlockHeader::new_block(BlockHeight(1), now_tai);
        let mut service = new_service(&last_block, config, txpool, producer, importer, now, now_tai);
        let started = service.start();
        assert(started.is_ok());
        TestContext { service }
    }
}

impl TestContext {
    /// Stops the scheduler and gives the state it rests in. A scheduler
    /// that has not come to rest stops, and its task is told once to
    /// release what it holds, which changes nothing of it; one that rests
    /// already stays as it is, and nothing is asked of its task.
    pub fn stop(&mut self) -> (state: State)
        ensures
            state@.is_at_rest(),
            state@ == final(self).service.runner.spec_state(),
            final(self).service.task == old(self).service.task,
            old(self).service.runner.spec_state().is_at_rest() ==> state@ == old(
                self,
            ).service.runner.spec_state() && final(self).service.task_untouched(old(self).service),
            !old(self).service.runner.spec_state().is_at_rest() ==> state@ is Stopped
                && final(self).service.shut_down_once(old(self).service),
    {
        self.service.stop_and_await()
    }
}

/// The state of a scheduler over stand-in ports.
pub type StandInView = TaskView<MockTransactionPool, MockBlockProducer, MockBlockImporter>;

/// The scheduler has a key that signs, and neither its producer nor its
/// importer is to fail.
pub open spec fn is_sound(state: StandInView) -> bool {
    &&& state.block_producer.failure is None
    &&& state.block_importer.failure is None
    &&& state.signing_key matches Some(key)
    &&& public_key_of(key.bytes@).is_some()
}

/// Since `before` the importer has kept exactly one block more, which
/// stands at `height` and carries `block_time`.
pub open spec fn kept_one_block(
    after: StandInView,
    before: StandInView,
    height: BlockHeight,
    block_time: Tai64,
) -> bool {
    &&& after.block_importer.committed@.len() == before.block_importer.committed@.len() + 1
    &&& after.block_importer.committed@.drop_last() == before.block_importer.committed@
    &&& after.block_importer.committed@.last().entity@.header.consensus.height == height
    &&& after.block_importer.committed@.last().entity@.header.consensus.time == block_time
}

/// A sound scheduler over stand-ins that is asked for a block whose time
/// does not lie before the last block's produces and commits it.
pub proof fn lemma_block_is_owed(
    before: StandInView,
    after: StandInView,
    height: BlockHeight,
    block_time: Tai64,
    now: Instant,
    outcome: Result<(), Error>,
)
    requires
        is_sound(before),
        before.schedule.last_timestamp.0 <= block_time.0,
        after.produce_block_post(before, height, block_time, now, outcome),
    ensures
        outcome.is_ok(),
{
    assert(before.refusal(block_time) is None);
}

/// A block that a sound scheduler over stand-ins produced and committed
/// is the one more block that the importer keeps, at the height and time
/// asked for; the schedule has moved on to it, and the scheduler is sound
/// as before.
pub proof fn lemma_block_is_kept(
    before: StandInView,
    after: StandInView,
    height: BlockHeight,
    block_time: Tai64,
    now: Instant,
)
    requires
        is_sound(before),
        after.produce_block_post(before, height, block_time, now, Ok(())),
    ensures
        is_sound(after),
        kept_one_block(after, before, height, block_time),
        after.signing_key == before.signing_key,
        after.schedule.trigger == before.schedule.trigger,
        after.schedule.last_height == height,
        after.schedule.last_timestamp == block_time,
        before.schedule.last_timestamp.0 <= block_time.0,
{
    assert(before.refusal(block_time) is None);
    assert(after.block_importer.committed@.drop_last() =~= before.block_importer.committed@);
}

/// The time of the block after the first `count` blocks of an operator's
/// request whose first block carries `first_time`, under `trigger`.
pub open spec fn manual_time(trigger: Trigger, first_time: Tai64, count: nat) -> int {
    first_time.0 + count * StandInView::manual_step_secs(trigger)
}

/// What holds of the state at place `k` of the states that a sound
/// scheduler over stand-ins went through while it produced the blocks of
/// an operator's request: it is sound, the importer keeps `k` blocks more
/// than at the start, each at its height and time, and the schedule stands
/// at the last of them.
pub open spec fn kept_blocks(
    state: StandInView,
    before: StandInView,
    first_time: Tai64,
    k: nat,
) -> bool {
    let base = before.block_importer.committed@.len();
    let kept = state.block_importer.committed@;
    &&& is_sound(state)
    &&& state.signing_key == before.signing_key
    &&& state.schedule.trigger == before.schedule.trigger
    &&& state.schedule.last_height.0 == before.schedule.last_height.0 + k
    &&& k > 0 ==> state.schedule.last_timestamp.0 == manual_time(
        before.schedule.trigger,
        first_time,
        (k - 1) as nat,
    )
    &&& k == 0 ==> state.schedule == before.schedule
    &&& kept.len() == base + k
    &&& kept.subrange(0, base as int) == before.block_importer.committed@
    &&& forall|i: int|
        base <= i < base + k ==> {
            &&& (#[trigger] kept[i]).entity@.header.consensus.height.0
                == before.schedule.last_height.0 + 1 + (i - base)
            &&& kept[i].entity@.header.consensus.time.0 == manual_time(
                before.schedule.trigger,
                first_time,
                (i - base) as nat,
            )
        }
}

/// Along the states that a scheduler went through for an operator's
/// request, block by block, a sound scheduler over stand-ins keeps every
/// block at its height and time.
pub proof fn lemma_chain_keeps_blocks(
    states: Seq<StandInView>,
    first_time: Tai64,
    now: Instant,
    k: nat,
)
    requires
        k < states.len(),
        forall|i: int|
            0 <= i < states.len() - 1 ==> #[trigger] StandInView::manual_link(
                states,
                i,
                first_time,
                now,
            ),
        is_sound(states[0]),
    ensures
        kept_blocks(states[k as int], states[0], first_time, k),
    decreases k,
{
    let before = states[0];
    let base = before.block_importer.committed@.len();
    if k == 0 {
        assert(before.block_importer.committed@.subrange(0, base as int)
            =~= before.block_importer.committed@);
    } else {
        let j = (k - 1) as nat;
        lemma_chain_keeps_blocks(states, first_time, now, j);
        let mid = states[j as int];
        let after = states[k as int];
        assert(StandInView::manual_link(states, j as int, first_time, now));
        let height = mid.schedule.spec_next_height()->Some_0;
        let block_time = StandInView::manual_block_time(mid, first_time, j);
        lemma_block_is_kept(mid, after, height, block_time, now);
        let step = StandInView::manual_step_secs(before.schedule.trigger);
        assert(block_time.0 == manual_time(before.schedule.trigger, first_time, j)) by {
            if j > 0 {
                assert(j * step == (j - 1) * step + step) by (nonlinear_arith);
                assert(mid.schedule.last_timestamp.0 == manual_time(
                    before.schedule.trigger,
                    first_time,
                    (j - 1) as nat,
                ));
                assert(mid.schedule.last_timestamp.0 + step <= u64::MAX);
            } else {
                assert(0 * step == 0) by (nonlinear_arith);
            }
        }
        let kept = after.block_importer.committed@;
        assert(kept.subrange(0, base as int) =~= before.block_importer.committed@) by {
            assert forall|i: int| 0 <= i < base implies kept[i]
                == before.block_importer.committed@[i] by {
                assert(kept.drop_last()[i] == kept[i]);
                assert(mid.block_importer.committed@.subrange(0, base as int)[i]
                    == mid.block_importer.committed@[i]);
            }
        }
        assert forall|i: int| base <= i < base + k implies {
            &&& (#[trigger] kept[i]).entity@.header.consensus.height.0
                == before.schedule.last_height.0 + 1 + (i - base)
            &&& kept[i].entity@.header.consensus.time.0 == manual_time(
                before.schedule.trigger,
                first_time,
                (i - base) as nat,
            )
        } by {
            if i < base + j {
                assert(kept.drop_last()[i] == kept[i]);
                assert(mid.block_importer.committed@[i].entity@.header.consensus.time.0
                    == manual_time(before.schedule.trigger, first_time, (i - base) as nat));
            }
        }
    }
}

/// An operator's request to a sound scheduler over stand-ins succeeds
/// wherever heights and times can be counted: the importer then keeps one
/// block more for each block asked for, at heights that go up by one from
/// the height after the last block, the first at the time chosen, or at
/// the schedule's next time, and each further one the policy's step after
/// the one before.
pub proof fn lemma_manual_blocks_are_owed(
    before: StandInView,
    after: StandInView,
    block_production: ManualProduction,
    now: Instant,
    outcome: Result<(), Error>,
)
    requires
        after.manual_post(before, block_production, now, outcome),
        is_sound(before),
        before.schedule.last_height.0 + block_production.number_of_blocks <= u32::MAX,
        before.manual_first_time(block_production.start_time, now) matches Ok(first_time)
            && before.schedule.last_timestamp.0 <= first_time.0 && manual_time(
            before.schedule.trigger,
            first_time,
            block_production.number_of_blocks as nat,
        ) <= u64::MAX,
    ensures
        outcome.is_ok(),
        kept_blocks(
            after,
            before,
            before.manual_first_time(block_production.start_time, now)->Ok_0,
            block_production.number_of_blocks as nat,
        ),
{
    let first_time = before.manual_first_time(block_production.start_time, now)->Ok_0;
    let wanted = block_production.number_of_blocks as nat;
    let step = StandInView::manual_step_secs(before.schedule.trigger);
    match outcome {
        Ok(_) => {
            let states = choose|states: Seq<StandInView>| #[trigger]
                after.manual_chain(before, states, first_time, now, wanted);
            lemma_chain_keeps_blocks(states, first_time, now, wanted);
        },
        Err(e) => {
            let (done, mid) = choose|done: nat, mid: StandInView| #[trigger]
                after.manual_failed_after(before, first_time, now, wanted, done, mid, e);
            let states = choose|states: Seq<StandInView>| #[trigger]
                mid.manual_chain(before, states, first_time, now, done);
            lemma_chain_keeps_blocks(states, first_time, now, done);
            assert(done * step <= wanted * step) by (nonlinear_arith)
                requires
                    done <= wanted,
                    0 <= step,
            ;
            assert(manual_time(before.schedule.trigger, first_time, done) <= u64::MAX);
            if done > 0 {
                assert(done * step == (done - 1) * step + step) by (nonlinear_arith);
                assert(mid.schedule.last_timestamp.0 + step <= u64::MAX);
                assert(mid.schedule.last_block_created == now);
                crate::poa::config::Duration::lemma_millis(0);
                assert(mid.schedule.spec_manual_step(now).as_secs() == step);
                assert(mid.schedule.spec_next_time(RequestType::Manual, now, Tai64(0)) is Ok);
            }
            assert(mid.schedule.spec_next_height() is Some);
            let height = mid.schedule.spec_next_height()->Some_0;
            let block_time = StandInView::manual_block_time(mid, first_time, done);
            assert(mid.schedule.last_timestamp.0 <= block_time.0);
            if after.produce_block_post(mid, height, block_time, now, Err(e)) {
                lemma_block_is_owed(mid, after, height, block_time, now, Err(e));
            }
            assert(false);
        },
    }
}

/// A script transaction without script whose gas limit is drawn from one up
/// to, and not including, the default gas ceiling of a transaction.
pub fn make_tx(rng: &mut rand::rngs::StdRng) -> (tx: Transaction)
    ensures
        1 <= tx@.gas_limit < DEFAULT_MAX_GAS_PER_TX,
        tx@.script.len() == 0,
        tx@.script_data.len() == 0,
{
    let gas_limit = draw_in_range(rng, 1, DEFAULT_MAX_GAS_PER_TX);
    Transaction::script(gas_limit, Vec::new(), Vec::new())
}

/// A signing key for scenarios, drawn from a generator with seed zero.
pub fn test_signing_key() -> (key: SecretKey)
    ensures
        public_key_of(key.bytes@).is_some(),
{
    let mut rng = seeded_rng(0);
    SecretKey { bytes: draw_secret_key(&mut rng) }
}

} // verus!
