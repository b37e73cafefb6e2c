//! The scheduler's task: what it does on the events that reach it, and the
//! way of a block from request to commit.

use vstd::prelude::*;
use crate::blockchain::block::Block;
use crate::blockchain::consensus::{Consensus, PoAConsensus, Signature};
use crate::blockchain::header::BlockHeader;
use crate::blockchain::primitives::{BlockHeight, Tai64, TxId};
use crate::blockchain::sealed::SealedBlock;
use crate::blockchain::transaction::{bytes32_views, ConsensusParameters, Transaction};
use crate::outside::{public_key_of, sign, signature_of};
use crate::poa::config::{Config, Instant, SecretKey, Trigger};
use crate::poa::ports::{
    BlockImporter, BlockProducer, Commit, History, PoolState, Production, TransactionPool,
};
use crate::poa::schedule::{Error, ManualProduction, RequestType, Schedule};
use crate::services::block_importer::ImportResult;
use crate::services::executor::{
    Error as ExecutorError, ExecutionResult, TransactionExecutionStatus, Uncommitted,
    UncommittedResult,
};
use crate::services::service::RunnableTask;
use crate::services::txpool::TxStatus;

verus! {

/// The identifiers, on the chain `chain_id`, of the transactions that an
/// execution skipped, in the order in which it reported them.
pub open spec fn skipped_ids(skipped: Seq<(Transaction, ExecutorError)>, chain_id: u64) -> Seq<
    Seq<u8>,
> {
    skipped.map_values(|entry: (Transaction, ExecutorError)| entry.0@.id(chain_id))
}

/// The signature that seals a block with identifier `id`, or why there is
/// none: without a key there is none, and none with bytes that are no
/// secret key, which is where they have no public key.
pub open spec fn spec_seal(signing_key: Option<SecretKey>, id: Seq<u8>) -> Result<Seq<u8>, Error> {
    match signing_key {
        None => Err(Error::NoSigningKey),
        Some(key) => if public_key_of(key.bytes@).is_none() {
            Err(Error::InvalidSigningKey)
        } else {
            Ok(signature_of(key.bytes@, id).unwrap())
        },
    }
}

/// Seals a block: signs its identifier with the authority's key.
pub fn seal_block(signing_key: &Option<SecretKey>, block: &Block) -> (seal: Result<Consensus, Error>)
    ensures
        match spec_seal(*signing_key, block@.header.spec_hash()) {
            Err(e) => seal == Err::<Consensus, Error>(e),
            Ok(signature) => seal matches Ok(Consensus::PoA(poa)) && poa.signature@ == signature,
        },
{
    match signing_key {
        None => Err(Error::NoSigningKey),
        Some(key) => {
            let id = block.id();
            match sign(&key.bytes, &id.0.bytes) {
                None => Err(Error::InvalidSigningKey),
                Some(bytes) => Ok(Consensus::PoA(PoAConsensus { signature: Signature { bytes } })),
            }
        },
    }
}

/// Computes the identifiers of the skipped transactions, in their order.
pub fn skipped_transaction_ids(skipped: &Vec<(Transaction, ExecutorError)>, params: &ConsensusParameters) -> (ids:
    Vec<TxId>)
    ensures
        bytes32_views(ids@) == skipped_ids(skipped@, params.chain_id),
        ids@.len() == skipped@.len(),
        forall|i: int|
            0 <= i < skipped@.len() ==> (#[trigger] ids@[i])@ == skipped@[i].0@.id(params.chain_id),
{
    let mut ids: Vec<TxId> = Vec::with_capacity(skipped.len());
    let mut i: usize = 0;
    while i < skipped.len()
        invariant
            i <= skipped.len(),
            ids@.len() == i,
            forall|j: int| 0 <= j < i ==> ids@[j]@ == skipped@[j].0@.id(params.chain_id),
        decreases skipped.len() - i,
    {
        ids.push(skipped[i].0.id(params));
        i += 1;
    }
    assert(bytes32_views(ids@) =~= skipped_ids(skipped@, params.chain_id));
    ids
}

/// What wakes the scheduler up.
#[derive(Clone, Copy, Debug, PartialEq, Eq)]
pub enum Event {
    /// The service is being stopped.
    Shutdown,
    /// An operator asks for blocks.
    ManualBlocks(ManualProduction),
    /// The pool's status stream gave a status, or ended.
    TxPool(Option<TxStatus>),
    /// The timer went off.
    Timer,
}

/// An event with the readings of the two clocks at which it is taken.
#[derive(Clone, Copy, Debug, PartialEq, Eq)]
pub struct TimedEvent {
    /// The event.
    pub event: Event,
    /// The reading of the clock that never goes back.
    pub now: Instant,
    /// The reading of the wall clock.
    pub now_tai: Tai64,
}

/// How a step of the scheduler ended.
#[derive(Clone, Copy, Debug, PartialEq, Eq)]
pub struct Step {
    /// Whether the scheduler goes on.
    pub should_continue: bool,
    /// The answer to the operator, where the step took an operator's
    /// request.
    pub response: Option<Result<(), Error>>,
}

/// The scheduler's task: its schedule, its key, its ports, and the record
/// of what it asked of them.
pub struct Task<T, B: BlockProducer, I> {
    /// What the scheduler remembers from one decision to the next.
    pub schedule: Schedule,
    /// The key that seals blocks, where the node is an authority.
    pub signing_key: Option<SecretKey>,
    /// The consensus parameters of the chain.
    pub consensus_params: ConsensusParameters,
    /// The transaction pool.
    pub txpool: T,
    /// The block producer.
    pub block_producer: B,
    /// The block importer.
    pub block_importer: I,
    /// What was asked of the ports so far, for the proofs.
    pub history: Ghost<History<B::Database>>,
}

/// What a task is, as mathematics: its parts, and what it asked of its
/// ports so far.
pub struct TaskView<T, B: BlockProducer, I> {
    pub schedule: Schedule,
    pub signing_key: Option<SecretKey>,
    pub consensus_params: ConsensusParameters,
    pub txpool: T,
    pub block_producer: B,
    pub block_importer: I,
    pub surveys: Seq<PoolState>,
    pub removals: Seq<Seq<TxId>>,
    pub removed: Seq<Seq<Transaction>>,
    pub productions: Seq<Production<B::Database>>,
    pub commits: Seq<Commit<B::Database>>,
}

impl<T, B: BlockProducer, I> View for Task<T, B, I> {
    type V = TaskView<T, B, I>;

    open spec fn view(&self) -> TaskView<T, B, I> {
        TaskView {
            schedule: self.schedule,
            signing_key: self.signing_key,
            consensus_params: self.consensus_params,
            txpool: self.txpool,
            block_producer: self.block_producer,
            block_importer: self.block_importer,
            surveys: self.history@.surveys,
            removals: self.history@.removals,
            removed: self.history@.removed,
            productions: self.history@.productions,
            commits: self.history@.commits,
        }
    }
}

impl<T, B, I> TaskView<T, B, I> where
    T: TransactionPool,
    B: BlockProducer,
    I: BlockImporter<Database = B::Database>,
 {
    /// Why a block with time `block_time` is refused before anything is
    /// asked of a port, if it is.
    pub open spec fn refusal(self, block_time: Tai64) -> Option<Error> {
        if self.signing_key.is_none() {
            Some(Error::NoSigningKey)
        } else if self.schedule.last_timestamp.0 > block_time.0 {
            Some(Error::TimestampNotMonotonic)
        } else {
            None
        }
    }

    /// The same state with `seen` as the latest answer of the pool.
    pub open spec fn surveyed(self, seen: PoolState) -> Self {
        TaskView { surveys: self.surveys.push(seen), ..self }
    }

    /// The pool was asked for exactly one removal more than `before`: that
    /// of the identifiers of `skipped`, in the order of `skipped`; and what
    /// is on record of it is what the pool of `before` may answer and be
    /// left as.
    pub open spec fn removed_once(
        self,
        before: Self,
        skipped: Seq<(Transaction, ExecutorError)>,
    ) -> bool {
        let chain_id = before.consensus_params.chain_id;
        &&& self.removals.len() == before.removals.len() + 1
        &&& self.removals.drop_last() == before.removals
        &&& bytes32_views(self.removals.last()) == skipped_ids(skipped, chain_id)
        &&& self.removals.last().len() == skipped.len()
        &&& forall|i: int|
            0 <= i < skipped.len() ==> (#[trigger] self.removals.last()[i])@ == skipped[i].0@.id(
                chain_id,
            )
        &&& self.removed.len() == before.removed.len() + 1
        &&& self.removed.drop_last() == before.removed
        &&& before.txpool.removes(&self.txpool, self.removals.last(), self.removed.last())
    }

    /// The importer was handed exactly one result more than `before`: the
    /// block `block` under a seal with `signature`, with `tx_status` and the
    /// pending storage changes `changes`; and what is on record of it is
    /// what the importer of `before` may answer and be left as.
    pub open spec fn committed_once(
        self,
        before: Self,
        block: Block,
        signature: Seq<u8>,
        tx_status: Vec<TransactionExecutionStatus>,
        changes: B::Database,
    ) -> bool {
        &&& self.commits.len() == before.commits.len() + 1
        &&& self.commits.drop_last() == before.commits
        &&& self.commits.last().result.spec_transaction() == changes
        &&& self.commits.last().result.spec_result().tx_status == tx_status
        &&& self.commits.last().result.spec_result().sealed_block.entity == block
        &&& self.commits.last().result.spec_result().sealed_block.consensus matches Consensus::PoA(
            poa,
        )
        &&& poa.signature@ == signature
        &&& before.block_importer.imports(
            &self.block_importer,
            self.commits.last().result,
            self.commits.last().response,
        )
    }

    /// The schedule has moved on to the block at `height` and `block_time`
    /// that was committed at `now`. Under the hybrid policy the pool was
    /// looked at once more, and the timer is set by what it answered;
    /// under the other policies the pool was not asked.
    pub open spec fn rescheduled(
        self,
        before: Self,
        height: BlockHeight,
        block_time: Tai64,
        now: Instant,
    ) -> bool {
        if before.schedule.trigger is Hybrid {
            &&& self.surveys.len() == before.surveys.len() + 1
            &&& self.surveys.drop_last() == before.surveys
            &&& self.surveys.last().is_lazy(true)
            &&& self.surveys.last().said_by(self.txpool)
            &&& self.schedule == before.schedule.spec_after_block(
                height,
                block_time,
                now,
                self.surveys.last().gas(),
                self.surveys.last().pending,
            )
        } else {
            &&& self.surveys == before.surveys
            &&& self.schedule == before.schedule.spec_after_block(height, block_time, now, 0, 0)
        }
    }

    /// What holds of pool, importer and schedule after the scheduler has
    /// taken the produced result `produced` for the block at `height` and
    /// `block_time` at `now`.
    ///
    /// The pool is asked, once, to remove the skipped transactions, by
    /// their identifiers in the order in which they were reported. The
    /// block is sealed and handed to the importer, once, with its storage
    /// changes. Where the importer commits, the schedule moves on to the
    /// block; where the seal or the commit fails, the error is the outcome
    /// and the schedule stays.
    pub open spec fn committed(
        self,
        before: Self,
        produced: UncommittedResult<B::Database>,
        height: BlockHeight,
        block_time: Tai64,
        now: Instant,
        outcome: Result<(), Error>,
    ) -> bool {
        let result = produced.spec_result();
        &&& self.signing_key == before.signing_key
        &&& self.consensus_params == before.consensus_params
        &&& self.removed_once(before, result.skipped_transactions@)
        &&& match spec_seal(before.signing_key, result.block@.header.spec_hash()) {
            Err(e) => {
                &&& outcome == Err::<(), Error>(e)
                &&& self.block_importer == before.block_importer
                &&& self.commits == before.commits
                &&& self.surveys == before.surveys
                &&& self.schedule == before.schedule
            },
            Ok(signature) => {
                &&& self.committed_once(
                    before,
                    result.block,
                    signature,
                    result.tx_status,
                    produced.spec_transaction(),
                )
                &&& match self.commits.last().response {
                    Err(e) => {
                        &&& outcome == Err::<(), Error>(Error::Importer(e))
                        &&& self.surveys == before.surveys
                        &&& self.schedule == before.schedule
                    },
                    Ok(_) => outcome == Ok::<(), Error>(()) && self.rescheduled(
                        before,
                        height,
                        block_time,
                        now,
                    ),
                }
            },
        }
    }

    /// What holds after the scheduler has taken a produced result: what
    /// `committed` tells, and the producer was not asked again.
    pub open spec fn commit_post(
        self,
        before: Self,
        produced: UncommittedResult<B::Database>,
        height: BlockHeight,
        block_time: Tai64,
        now: Instant,
        outcome: Result<(), Error>,
    ) -> bool {
        &&& self.committed(before, produced, height, block_time, now, outcome)
        &&& self.block_producer == before.block_producer
        &&& self.productions == before.productions
    }

    /// What holds after the scheduler was asked for the block at `height`
    /// and `block_time` at `now`.
    ///
    /// Without a key, or with a time before the last block's, nothing is
    /// asked of any port. Else the producer is asked once, for this height
    /// and time within the block gas limit, and what is on record of it is
    /// what the producer of `before` may answer. Where it fails, its error is
    /// the outcome and nothing else has happened; where it answers, the
    /// answer is taken as `committed` tells.
    pub open spec fn produce_block_post(
        self,
        before: Self,
        height: BlockHeight,
        block_time: Tai64,
        now: Instant,
        outcome: Result<(), Error>,
    ) -> bool {
        match before.refusal(block_time) {
            Some(e) => outcome == Err::<(), Error>(e) && self == before,
            None => {
                &&& self.productions.len() == before.productions.len() + 1
                &&& self.productions.drop_last() == before.productions
                &&& self.productions.last().height == height
                &&& self.productions.last().block_time == block_time
                &&& self.productions.last().max_gas == before.schedule.block_gas_limit
                &&& before.block_producer.produces(
                    &self.block_producer,
                    height,
                    block_time,
                    before.schedule.block_gas_limit,
                    self.productions.last().response,
                )
                &&& match self.productions.last().response {
                    Err(e) => outcome == Err::<(), Error>(Error::Producer(e)) && self == (TaskView {
                        block_producer: self.block_producer,
                        productions: self.productions,
                        ..before
                    }),
                    Ok(produced) => self.committed(
                        before,
                        produced,
                        height,
                        block_time,
                        now,
                        outcome,
                    ),
                }
            },
        }
    }

    /// What holds after the trigger asked for the next block at `now`:
    /// the block stands one above the last and carries the schedule's next
    /// time; where either cannot be counted, nothing has happened.
    pub open spec fn produce_next_block_post(
        self,
        before: Self,
        now: Instant,
        now_tai: Tai64,
        outcome: Result<(), Error>,
    ) -> bool {
        match before.schedule.spec_next_height() {
            None => outcome == Err::<(), Error>(Error::HeightOverflow) && self == before,
            Some(height) => match before.schedule.spec_next_time(
                RequestType::Trigger,
                now,
                now_tai,
            ) {
                Err(e) => outcome == Err::<(), Error>(e) && self == before,
                Ok(block_time) => self.produce_block_post(before, height, block_time, now, outcome),
            },
        }
    }

    /// What holds after the scheduler, having looked at the pool and seen
    /// `seen`, has decided at `now`; `before` is the task after the look,
    /// and `submitted` tells whether the status that led to the look spoke
    /// of a new transaction.
    ///
    /// With an empty pool nothing happens. With a transaction waiting, the
    /// instant policy produces the next block; the hybrid policy produces
    /// it where a full block is due, and else, on a new transaction, sets
    /// the timer anew for the quiet time.
    pub open spec fn pool_decision_post(
        self,
        before: Self,
        seen: PoolState,
        submitted: bool,
        now: Instant,
        now_tai: Tai64,
        outcome: Result<(), Error>,
    ) -> bool {
        if seen.pending == 0 {
            outcome == Ok::<(), Error>(()) && self == before
        } else if before.schedule.trigger is Instant || before.schedule.spec_full_block_due(
            seen.gas(),
            now,
        ) {
            self.produce_next_block_post(before, now, now_tai, outcome)
        } else if submitted {
            outcome == Ok::<(), Error>(()) && self == (TaskView {
                schedule: Schedule {
                    deadline: Some(before.schedule.spec_idle_deadline(now)),
                    ..before.schedule
                },
                ..before
            })
        } else {
            outcome == Ok::<(), Error>(()) && self == before
        }
    }

    /// What holds after the status `status` of the pool reached the
    /// scheduler at `now`. The status is a hint: under the instant and the
    /// hybrid policy the pool is looked at, and what it answers decides as
    /// `pool_decision_post` tells; under the other policies nothing
    /// happens and the pool is not asked.
    pub open spec fn on_txpool_event_post(
        self,
        before: Self,
        status: TxStatus,
        now: Instant,
        now_tai: Tai64,
        outcome: Result<(), Error>,
    ) -> bool {
        match before.schedule.trigger {
            Trigger::Never | Trigger::Interval { .. } => outcome == Ok::<(), Error>(()) && self
                == before,
            Trigger::Instant | Trigger::Hybrid { .. } => {
                let seen = self.surveys[before.surveys.len() as int];
                &&& self.surveys.len() > before.surveys.len()
                &&& seen.is_lazy(before.schedule.trigger is Hybrid)
                &&& seen.said_by(before.txpool)
                &&& self.pool_decision_post(
                    before.surveyed(seen),
                    seen,
                    status is Submitted,
                    now,
                    now_tai,
                    outcome,
                )
            },
        }
    }

    /// What holds after the timer went off at `now`: under the policies
    /// that set a timer the next block was asked for; under the others
    /// nothing has happened.
    pub open spec fn on_timer_post(
        self,
        before: Self,
        now: Instant,
        now_tai: Tai64,
        outcome: Result<(), Error>,
    ) -> bool {
        match before.schedule.trigger {
            Trigger::Never | Trigger::Instant => outcome == Ok::<(), Error>(()) && self == before,
            Trigger::Interval { .. } | Trigger::Hybrid { .. } => self.produce_next_block_post(
                before,
                now,
                now_tai,
                outcome,
            ),
        }
    }

    /// The whole seconds that lie between the times of two blocks that an
    /// operator asks for in one request at one clock reading: none where
    /// blocks are not produced on time, the policy's block time where they
    /// are.
    pub open spec fn manual_step_secs(trigger: Trigger) -> u64 {
        match trigger {
            Trigger::Never | Trigger::Instant => 0,
            Trigger::Interval { block_time } => block_time.as_secs(),
            Trigger::Hybrid { min_block_time, .. } => min_block_time.as_secs(),
        }
    }

    /// The time of the first block of an operator's request: the time the
    /// operator chose, or the schedule's next time.
    pub open spec fn manual_first_time(self, start_time: Option<Tai64>, now: Instant) -> Result<
        Tai64,
        Error,
    > {
        match start_time {
            Some(time) => Ok(time),
            None => self.schedule.spec_next_time(RequestType::Manual, now, Tai64(0)),
        }
    }

    /// The time that the block after the first `count` blocks of an
    /// operator's request is asked for, where `mid` is the state after
    /// these blocks.
    pub open spec fn manual_block_time(mid: Self, first_time: Tai64, count: nat) -> Tai64 {
        if count == 0 {
            first_time
        } else {
            Tai64(
                (mid.schedule.last_timestamp.0 + Self::manual_step_secs(
                    mid.schedule.trigger,
                )) as u64,
            )
        }
    }

    /// From the state at place `i` of `states` the block after the first
    /// `i` blocks of an operator's request was asked for, one above the
    /// last and at a time that could be counted, and was produced and
    /// committed, which left the state at the next place.
    pub open spec fn manual_link(states: Seq<Self>, i: int, first_time: Tai64, now: Instant) -> bool {
        &&& i > 0 ==> states[i].schedule.last_timestamp.0 + Self::manual_step_secs(
            states[i].schedule.trigger,
        ) <= u64::MAX
        &&& states[i].schedule.spec_next_height() matches Some(height)
        &&& states[i + 1].produce_block_post(
            states[i],
            height,
            Self::manual_block_time(states[i], first_time, i as nat),
            now,
            Ok(()),
        )
    }

    /// `states` are the states that the scheduler went through from
    /// `before` to this one while it produced the first `count` blocks of
    /// an operator's request, one block from each to the next.
    pub open spec fn manual_chain(
        self,
        before: Self,
        states: Seq<Self>,
        first_time: Tai64,
        now: Instant,
        count: nat,
    ) -> bool {
        &&& states.len() == count + 1
        &&& states.first() == before
        &&& states.last() == self
        &&& forall|i: int| 0 <= i < count ==> #[trigger] Self::manual_link(states, i, first_time, now)
    }

    /// The first `count` blocks of an operator's request were produced and
    /// committed since `before`, one after the other, each as
    /// `produce_block_post` tells: producer, importer and pool were asked
    /// `count` times more; the heights asked for go up by one from the
    /// height after the last block; the first time asked for is
    /// `first_time` and each further one lies the policy's step after the
    /// one before; every block that the producer gave is the block that the
    /// importer was handed; and the schedule has moved on to the last of
    /// them.
    pub open spec fn manual_progress(
        self,
        before: Self,
        first_time: Tai64,
        now: Instant,
        count: nat,
    ) -> bool {
        let base = before.productions.len();
        let committed = before.commits.len();
        &&& self.signing_key == before.signing_key
        &&& self.consensus_params == before.consensus_params
        &&& self.schedule.trigger == before.schedule.trigger
        &&& self.schedule.block_gas_limit == before.schedule.block_gas_limit
        &&& self.productions.len() == base + count
        &&& self.productions.subrange(0, base as int) == before.productions
        &&& self.commits.len() == committed + count
        &&& self.commits.subrange(0, committed as int) == before.commits
        &&& self.removals.len() == before.removals.len() + count
        &&& self.schedule.last_height.0 == before.schedule.last_height.0 + count
        &&& count == 0 ==> self == before
        &&& count > 0 ==> {
            &&& self.productions[base as int].block_time == first_time
            &&& self.schedule.last_timestamp == self.productions.last().block_time
            &&& self.schedule.last_block_created == now
        }
        &&& forall|i: int|
            0 <= i < count ==> {
                &&& (#[trigger] self.productions[base + i]).height.0
                    == before.schedule.last_height.0 + 1 + i
                &&& self.productions[base + i].max_gas == before.schedule.block_gas_limit
                &&& self.productions[base + i].response matches Ok(produced)
                &&& self.commits[committed + i].result.spec_result().sealed_block.entity
                    == produced.spec_result().block
                &&& self.commits[committed + i].response.is_ok()
            }
        &&& forall|i: int|
            0 < i < count ==> (#[trigger] self.productions[base + i]).block_time.0
                == self.productions[base + i - 1].block_time.0 + Self::manual_step_secs(
                before.schedule.trigger,
            )
        &&& exists|states: Seq<Self>| #[trigger]
            self.manual_chain(before, states, first_time, now, count)
    }

    /// An operator's request for `wanted` blocks failed with `e` after its
    /// first `count` blocks, which left the state `mid`. Either the height
    /// or the time of the next block could not be counted, and nothing has
    /// happened since `mid`; or the next block was asked for and was not
    /// committed, as `produce_block_post` tells.
    pub open spec fn manual_failed_after(
        self,
        before: Self,
        first_time: Tai64,
        now: Instant,
        wanted: nat,
        count: nat,
        mid: Self,
        e: Error,
    ) -> bool {
        &&& count <= wanted
        &&& mid.manual_progress(before, first_time, now, count)
        &&& {
            ||| {
                &&& self == mid
                &&& count < wanted
                &&& mid.schedule.spec_next_height() is None
                &&& e == Error::HeightOverflow
            }
            ||| {
                &&& self == mid
                &&& count > 0
                &&& mid.schedule.spec_next_time(RequestType::Manual, now, Tai64(0)) == Err::<
                    Tai64,
                    Error,
                >(e)
            }
            ||| {
                &&& count < wanted
                &&& mid.schedule.spec_next_height() matches Some(height)
                &&& self.produce_block_post(
                    mid,
                    height,
                    Self::manual_block_time(mid, first_time, count),
                    now,
                    Err(e),
                )
            }
        }
    }

    /// What holds after an operator's request failed with `e`: the time of
    /// the first block could not be counted and nothing has happened; or
    /// some of the blocks stand and the failure is that of the block after
    /// them, as `manual_failed_after` tells.
    pub open spec fn manual_failure(
        self,
        before: Self,
        block_production: ManualProduction,
        now: Instant,
        e: Error,
    ) -> bool {
        let first = before.manual_first_time(block_production.start_time, now);
        if first is Err {
            first == Err::<Tai64, Error>(e) && self == before
        } else {
            exists|done: nat, mid: Self| #[trigger]
                self.manual_failed_after(
                    before,
                    first->Ok_0,
                    now,
                    block_production.number_of_blocks as nat,
                    done,
                    mid,
                    e,
                )
        }
    }

    /// What holds after an operator asked for `number_of_blocks` blocks at
    /// `now`. On success all of them were produced and committed, as
    /// `manual_progress` tells. On failure some of them stand, and the
    /// failure is that of the block after them, as `manual_failure` tells.
    pub open spec fn manual_post(
        self,
        before: Self,
        block_production: ManualProduction,
        now: Instant,
        outcome: Result<(), Error>,
    ) -> bool {
        match outcome {
            Ok(_) => before.manual_first_time(block_production.start_time, now) matches Ok(
                first_time,
            ) && self.manual_progress(
                before,
                first_time,
                now,
                block_production.number_of_blocks as nat,
            ),
            Err(e) => self.manual_failure(before, block_production, now, e),
        }
    }

    /// What holds after the scheduler took `event` at `now`.
    ///
    /// A shutdown and the end of the pool's stream end the task and change
    /// nothing. An operator's request is worked off and its outcome is the
    /// answer to the operator; the task goes on whatever that outcome. A
    /// status of the pool and the timer lead to the decisions that
    /// `on_txpool_event_post` and `on_timer_post` tell; their error is the
    /// step's error.
    pub open spec fn run_post(
        self,
        before: Self,
        event: Event,
        now: Instant,
        now_tai: Tai64,
        step: Result<Step, Error>,
    ) -> bool {
        match event {
            Event::Shutdown | Event::TxPool(None) => self == before && step == Ok::<Step, Error>(
                Step { should_continue: false, response: None },
            ),
            Event::ManualBlocks(request) => match step {
                Ok(s) => s.should_continue && match s.response {
                    Some(outcome) => self.manual_post(before, request, now, outcome),
                    None => false,
                },
                Err(_) => false,
            },
            Event::TxPool(Some(status)) => match step {
                Ok(s) => s == (Step { should_continue: true, response: None })
                    && self.on_txpool_event_post(before, status, now, now_tai, Ok(())),
                Err(e) => self.on_txpool_event_post(before, status, now, now_tai, Err(e)),
            },
            Event::Timer => match step {
                Ok(s) => s == (Step { should_continue: true, response: None })
                    && self.on_timer_post(before, now, now_tai, Ok(())),
                Err(e) => self.on_timer_post(before, now, now_tai, Err(e)),
            },
        }
    }

    /// What holds after a decision at `now`: one taken on the pool status
    /// `status`, or, without a status, on the timer.
    pub open spec fn decision_post(
        self,
        before: Self,
        status: Option<TxStatus>,
        now: Instant,
        now_tai: Tai64,
        outcome: Result<(), Error>,
    ) -> bool {
        match status {
            Some(status) => self.on_txpool_event_post(before, status, now, now_tai, outcome),
            None => self.on_timer_post(before, now, now_tai, outcome),
        }
    }

    /// The states run through the decisions in their order: each state
    /// but the first is what the decision before it left, taken on the
    /// timer or on a pool status at the readings given, with the outcome
    /// given.
    pub open spec fn decisions_hold(
        states: Seq<Self>,
        decisions: Seq<(Option<TxStatus>, Instant, Tai64)>,
        outcomes: Seq<Result<(), Error>>,
    ) -> bool {
        &&& states.len() == decisions.len() + 1
        &&& outcomes.len() == decisions.len()
        &&& forall|i: int|
            0 <= i < decisions.len() ==> states[i + 1].decision_post(
                states[i],
                (#[trigger] decisions[i]).0,
                decisions[i].1,
                decisions[i].2,
                outcomes[i],
            )
    }

    /// A request for a block asks producer and importer at most once each,
    /// commits nothing that was not produced and removes nothing unless a
    /// block was produced. The chain grows by the block where the outcome
    /// is success, to the height that was asked for, and stays as it is
    /// where not.
    pub proof fn lemma_one_block_at_a_time(
        before: Self,
        after: Self,
        height: BlockHeight,
        block_time: Tai64,
        now: Instant,
        outcome: Result<(), Error>,
    )
        requires
            after.produce_block_post(before, height, block_time, now, outcome),
        ensures
            before.productions.len() <= after.productions.len() <= before.productions.len() + 1,
            before.commits.len() <= after.commits.len() <= before.commits.len() + 1,
            before.removals.len() <= after.removals.len() <= before.removals.len() + 1,
            before.surveys.len() <= after.surveys.len() <= before.surveys.len() + 1,
            after.commits.len() > before.commits.len() ==> after.removals.len()
                > before.removals.len(),
            after.removals.len() > before.removals.len() ==> after.productions.len()
                > before.productions.len(),
            after.productions.len() > before.productions.len()
                ==> after.productions.last().height == height,
            outcome.is_ok() ==> after.schedule.last_height == height
                && after.schedule.last_timestamp == block_time && after.commits.len()
                == before.commits.len() + 1,
            outcome.is_err() ==> after.schedule == before.schedule,
            after.signing_key == before.signing_key,
            after.consensus_params == before.consensus_params,
    {
    }

    /// Whatever status arrives and however often: where the pool answers
    /// that nothing waits, the scheduler asks nothing of the producer or
    /// the importer, removes nothing from the pool, and its schedule stays
    /// as it is, under every policy.
    pub proof fn lemma_idle_pool_is_left_alone(
        before: Self,
        after: Self,
        status: TxStatus,
        now: Instant,
        now_tai: Tai64,
        outcome: Result<(), Error>,
    )
        requires
            after.on_txpool_event_post(before, status, now, now_tai, outcome),
            forall|i: int|
                before.surveys.len() <= i < after.surveys.len() ==> (
                #[trigger] after.surveys[i]).pending == 0,
        ensures
            outcome.is_ok(),
            after.productions == before.productions,
            after.commits == before.commits,
            after.removals == before.removals,
            after.schedule == before.schedule,
            after.txpool == before.txpool,
            after.block_producer == before.block_producer,
            after.block_importer == before.block_importer,
    {
    }

    /// Where a production reports skipped transactions, the pool is asked
    /// to remove them exactly once, by exactly their identifiers in the
    /// order in which they were reported, whether the block is then
    /// committed or not.
    pub proof fn lemma_skipped_are_removed_in_order(
        before: Self,
        after: Self,
        produced: UncommittedResult<B::Database>,
        height: BlockHeight,
        block_time: Tai64,
        now: Instant,
        outcome: Result<(), Error>,
    )
        requires
            after.committed(before, produced, height, block_time, now, outcome),
        ensures
            after.removals.len() == before.removals.len() + 1,
            after.removals.drop_last() == before.removals,
            after.removals.last().len() == produced.spec_result().skipped_transactions@.len(),
            forall|i: int|
                0 <= i < produced.spec_result().skipped_transactions@.len() ==> (
                #[trigger] after.removals.last()[i])@
                    == produced.spec_result().skipped_transactions@[i].0@.id(
                    before.consensus_params.chain_id,
                ),
    {
        let ids = skipped_ids(
            produced.spec_result().skipped_transactions@,
            before.consensus_params.chain_id,
        );
        let removed = after.removals.last();
        assert(bytes32_views(removed) == ids);
        assert(bytes32_views(removed).len() == removed.len());
        assert forall|i: int|
            0 <= i < produced.spec_result().skipped_transactions@.len() implies (
        #[trigger] removed[i])@ == produced.spec_result().skipped_transactions@[i].0@.id(
            before.consensus_params.chain_id,
        ) by {
            assert(bytes32_views(removed)[i] == removed[i]@);
        }
    }

    /// A pool status or a timer leads to at most one block: the producer
    /// is asked at most once, for the height above the last block, and the
    /// importer is handed at most one block. The chain grows by that block
    /// where the outcome is success, and not at all where it is not.
    pub proof fn lemma_one_block_per_decision(
        before: Self,
        after: Self,
        status: Option<TxStatus>,
        now: Instant,
        now_tai: Tai64,
        outcome: Result<(), Error>,
    )
        requires
            after.decision_post(before, status, now, now_tai, outcome),
        ensures
            before.productions.len() <= after.productions.len() <= before.productions.len() + 1,
            before.commits.len() <= after.commits.len() <= before.commits.len() + 1,
            after.commits.len() - before.commits.len() <= after.productions.len()
                - before.productions.len(),
            after.productions.len() > before.productions.len()
                ==> after.productions.last().height.0 == before.schedule.last_height.0 + 1,
            after.schedule.last_height.0 > before.schedule.last_height.0 ==> outcome.is_ok()
                && after.schedule.last_height.0 == before.schedule.last_height.0 + 1
                && after.commits.len() == before.commits.len() + 1,
            after.schedule.last_height.0 >= before.schedule.last_height.0,
    {
        if status is Some && (before.schedule.trigger is Instant || before.schedule.trigger
            is Hybrid) {
            let seen = after.surveys[before.surveys.len() as int];
            let looked = before.surveyed(seen);
            assert(after.pool_decision_post(
                looked,
                seen,
                status->Some_0 is Submitted,
                now,
                now_tai,
                outcome,
            ));
            assert(looked.productions == before.productions);
        }
    }

    /// The timer stays in order over every decision: where the schedule was
    /// well formed before a pool status or a timer was taken, it is well
    /// formed after. So under the hybrid policy the timer never stands
    /// later than `max_block_time` after the last block, and under the
    /// policies that do not produce on time it is never set.
    pub proof fn lemma_decisions_keep_the_timer_in_order(
        before: Self,
        after: Self,
        status: Option<TxStatus>,
        now: Instant,
        now_tai: Tai64,
        outcome: Result<(), Error>,
    )
        requires
            before.schedule.wf(),
            after.decision_post(before, status, now, now_tai, outcome),
        ensures
            after.schedule.wf(),
            after.schedule.trigger == before.schedule.trigger,
            after.schedule.block_gas_limit == before.schedule.block_gas_limit,
    {
        if status is Some && (before.schedule.trigger is Instant || before.schedule.trigger
            is Hybrid) {
            let seen = after.surveys[before.surveys.len() as int];
            let looked = before.surveyed(seen);
            assert(after.pool_decision_post(
                looked,
                seen,
                status->Some_0 is Submitted,
                now,
                now_tai,
                outcome,
            ));
            assert(looked.schedule == before.schedule);
        }
    }

    /// Production is serial. Over any run of decisions the producer is
    /// asked no more often than decisions were taken, the importer is
    /// handed no more blocks than were produced, and the chain grows by no
    /// more blocks than were handed to the importer; it never shrinks. So
    /// no two blocks are committed at one height.
    pub proof fn lemma_production_is_serial(
        states: Seq<Self>,
        decisions: Seq<(Option<TxStatus>, Instant, Tai64)>,
        outcomes: Seq<Result<(), Error>>,
    )
        requires
            Self::decisions_hold(states, decisions, outcomes),
        ensures
            states.last().productions.len() - states.first().productions.len() <= decisions.len(),
            0 <= states.last().commits.len() - states.first().commits.len()
                <= states.last().productions.len() - states.first().productions.len(),
            0 <= states.last().schedule.last_height.0 - states.first().schedule.last_height.0
                <= states.last().commits.len() - states.first().commits.len(),
        decreases decisions.len(),
    {
        if decisions.len() > 0 {
            let n = decisions.len() as int;
            let earlier_states = states.drop_last();
            let earlier_decisions = decisions.drop_last();
            let earlier_outcomes = outcomes.drop_last();
            assert(Self::decisions_hold(earlier_states, earlier_decisions, earlier_outcomes)) by {
                assert forall|i: int|
                    0 <= i < earlier_decisions.len() implies earlier_states[i + 1].decision_post(
                    earlier_states[i],
                    (#[trigger] earlier_decisions[i]).0,
                    earlier_decisions[i].1,
                    earlier_decisions[i].2,
                    earlier_outcomes[i],
                ) by {
                    assert(decisions[i] == earlier_decisions[i]);
                }
            }
            Self::lemma_production_is_serial(earlier_states, earlier_decisions, earlier_outcomes);
            assert(earlier_states.last() == states[n - 1]);
            assert(earlier_states.first() == states.first());
            let last = decisions[n - 1];
            Self::lemma_one_block_per_decision(
                states[n - 1],
                states[n],
                last.0,
                last.1,
                last.2,
                outcomes[n - 1],
            );
        }
    }

    /// An operator's request asks no port more often than once for each
    /// block asked for, and the chain grows by no more blocks than were
    /// asked for and never shrinks, whether the request succeeds or fails.
    pub proof fn lemma_manual_request_is_bounded(
        before: Self,
        after: Self,
        block_production: ManualProduction,
        now: Instant,
        outcome: Result<(), Error>,
    )
        requires
            after.manual_post(before, block_production, now, outcome),
        ensures
            after.productions.len() <= before.productions.len()
                + block_production.number_of_blocks,
            after.commits.len() <= before.commits.len() + block_production.number_of_blocks,
            after.removals.len() <= before.removals.len() + block_production.number_of_blocks,
            before.schedule.last_height.0 <= after.schedule.last_height.0
                <= before.schedule.last_height.0 + block_production.number_of_blocks,
            outcome.is_ok() ==> after.schedule.last_height.0 == before.schedule.last_height.0
                + block_production.number_of_blocks,
    {
        match outcome {
            Ok(_) => {},
            Err(e) => {
                match before.manual_first_time(block_production.start_time, now) {
                    Err(_) => {},
                    Ok(first_time) => {
                        let (done, mid) = choose|done: nat, mid: Self| #[trigger]
                            after.manual_failed_after(
                                before,
                                first_time,
                                now,
                                block_production.number_of_blocks as nat,
                                done,
                                mid,
                                e,
                            );
                        if after != mid {
                            let height = mid.schedule.spec_next_height()->Some_0;
                            Self::lemma_one_block_at_a_time(
                                mid,
                                after,
                                height,
                                Self::manual_block_time(mid, first_time, done),
                                now,
                                Err(e),
                            );
                        }
                    },
                }
            },
        }
    }

    /// One more block of an operator's request: where `count` blocks stand
    /// at `mid` and the next was produced and committed, `count + 1` stand.
    pub proof fn lemma_manual_progress_step(
        before: Self,
        mid: Self,
        after: Self,
        first_time: Tai64,
        height: BlockHeight,
        block_time: Tai64,
        now: Instant,
        count: nat,
    )
        requires
            mid.manual_progress(before, first_time, now, count),
            mid.schedule.spec_next_height() == Some(height),
            count == 0 ==> block_time == first_time,
            count > 0 ==> block_time.0 == mid.schedule.last_timestamp.0 + Self::manual_step_secs(
                before.schedule.trigger,
            ),
            after.produce_block_post(mid, height, block_time, now, Ok(())),
        ensures
            after.manual_progress(before, first_time, now, count + 1),
    {
        let base = before.productions.len();
        let committed = before.commits.len();
        let productions = after.productions;
        let commits = after.commits;
        assert(mid.refusal(block_time) is None);
        assert(productions.drop_last() == mid.productions);
        assert(commits.drop_last() == mid.commits);
        assert(productions.subrange(0, base as int) =~= before.productions) by {
            assert forall|j: int| 0 <= j < base implies productions[j] == before.productions[j] by {
                assert(productions.drop_last()[j] == productions[j]);
                assert(mid.productions.subrange(0, base as int)[j] == mid.productions[j]);
            }
        }
        assert(commits.subrange(0, committed as int) =~= before.commits) by {
            assert forall|j: int| 0 <= j < committed implies commits[j] == before.commits[j] by {
                assert(commits.drop_last()[j] == commits[j]);
                assert(mid.commits.subrange(0, committed as int)[j] == mid.commits[j]);
            }
        }
        assert forall|i: int| 0 <= i < count + 1 implies {
            &&& (#[trigger] productions[base + i]).height.0 == before.schedule.last_height.0 + 1
                + i
            &&& productions[base + i].max_gas == before.schedule.block_gas_limit
            &&& productions[base + i].response matches Ok(produced)
            &&& commits[committed + i].result.spec_result().sealed_block.entity
                == produced.spec_result().block
            &&& commits[committed + i].response.is_ok()
        } by {
            if i < count {
                assert(productions.drop_last()[base + i] == productions[base + i]);
                assert(commits.drop_last()[committed + i] == commits[committed + i]);
                assert(mid.productions[base + i].height.0 == before.schedule.last_height.0 + 1 + i);
            }
        }
        assert forall|i: int| 0 < i < count + 1 implies (#[trigger] productions[base
            + i]).block_time.0 == productions[base + i - 1].block_time.0 + Self::manual_step_secs(
            before.schedule.trigger,
        ) by {
            assert(productions.drop_last()[base + i - 1] == productions[base + i - 1]);
            if i < count {
                assert(productions.drop_last()[base + i] == productions[base + i]);
                assert(mid.productions[base + i].block_time.0 == mid.productions[base + i
                    - 1].block_time.0 + Self::manual_step_secs(before.schedule.trigger));
            }
        }
        if count > 0 {
            assert(productions.drop_last()[base as int] == productions[base as int]);
        }
        let earlier = choose|states: Seq<Self>| #[trigger]
            mid.manual_chain(before, states, first_time, now, count);
        let states = earlier.push(after);
        assert forall|i: int| 0 <= i < count + 1 implies #[trigger] Self::manual_link(
            states,
            i,
            first_time,
            now,
        ) by {
            if i < count {
                assert(Self::manual_link(earlier, i, first_time, now));
                assert(states[i] == earlier[i]);
                assert(states[i + 1] == earlier[i + 1]);
            } else {
                assert(states[i] == mid);
                assert(states[i + 1] == after);
                assert(block_time == Self::manual_block_time(mid, first_time, count));
            }
        }
        assert(after.manual_chain(before, states, first_time, now, count + 1));
    }
}

impl<T, B, I> Task<T, B, I> where
    T: TransactionPool,
    B: BlockProducer,
    I: BlockImporter<Database = B::Database>,
 {
    /// A task that starts at `now` on top of the block with header
    /// `last_block`, and has asked nothing of its ports yet.
    pub fn new(
        last_block: &BlockHeader,
        config: Config,
        txpool: T,
        block_producer: B,
        block_importer: I,
        now: Instant,
        now_tai: Tai64,
    ) -> (task: Self)
        ensures
            task@ == (TaskView {
                schedule: Schedule::spec_new(
                    config.trigger,
                    config.block_gas_limit,
                    last_block.consensus.height,
                    last_block.consensus.time,
                    now,
                    now_tai,
                ),
                signing_key: config.signing_key,
                consensus_params: config.consensus_params,
                txpool,
                block_producer,
                block_importer,
                surveys: Seq::empty(),
                removals: Seq::empty(),
                removed: Seq::empty(),
                productions: Seq::empty(),
                commits: Seq::empty(),
            }),
    {
        Task {
            schedule: Schedule::new(
                config.trigger,
                config.block_gas_limit,
                last_block.height(),
                last_block.time(),
                now,
                now_tai,
            ),
            signing_key: config.signing_key,
            consensus_params: config.consensus_params,
            txpool,
            block_producer,
            block_importer,
            history: Ghost(
                History {
                    surveys: Seq::empty(),
                    removals: Seq::empty(),
                    removed: Seq::empty(),
                    productions: Seq::empty(),
                    commits: Seq::empty(),
                },
            ),
        }
    }

    /// Looks at the pool: counts the waiting transactions and, where gas
    /// is wanted and a transaction waits, adds up their gas. What is seen
    /// is what the pool, as it stands, may answer.
    pub fn survey(&mut self, with_gas: bool) -> (seen: PoolState)
        ensures
            final(self)@ == old(self)@.surveyed(seen),
            seen.is_lazy(with_gas),
            seen.said_by(old(self).txpool),
    {
        let pending = self.txpool.pending_number();
        let consumable_gas = if with_gas && pending > 0 {
            Some(self.txpool.total_consumable_gas())
        } else {
            None
        };
        let seen = PoolState { pending, consumable_gas };
        proof {
            self.history@ = History { surveys: self.history@.surveys.push(seen), ..self.history@ };
        }
        seen
    }

    /// Takes a produced result for the block at `height` and `block_time`:
    /// has the skipped transactions removed from the pool, seals the block,
    /// has it committed and moves the schedule on.
    pub fn commit_production(
        &mut self,
        produced: UncommittedResult<B::Database>,
        height: BlockHeight,
        block_time: Tai64,
        now: Instant,
    ) -> (outcome: Result<(), Error>)
        ensures
            final(self)@.commit_post(old(self)@, produced, height, block_time, now, outcome),
    {
        let (result, db_transaction) = produced.into_parts();
        let ExecutionResult { block, skipped_transactions, tx_status } = result;
        let tx_ids_to_remove = skipped_transaction_ids(&skipped_transactions, &self.consensus_params);
        let ghost asked = tx_ids_to_remove@;
        let left = self.txpool.remove_txs(tx_ids_to_remove);
        proof {
            self.history@ = History {
                removals: self.history@.removals.push(asked),
                removed: self.history@.removed.push(left@),
                ..self.history@
            };
            assert(self@.removals.drop_last() =~= old(self)@.removals);
            assert(self@.removed.drop_last() =~= old(self)@.removed);
        }
        let seal = match seal_block(&self.signing_key, &block) {
            Err(e) => { return Err(e); },
            Ok(seal) => seal,
        };
        let sealed = SealedBlock { entity: block, consensus: seal };
        let import = Uncommitted::new(ImportResult::new_from_local(sealed, tx_status), db_transaction);
        let response = self.block_importer.commit_result(import);
        proof {
            self.history@ = History {
                commits: self.history@.commits.push(Commit { result: import, response }),
                ..self.history@
            };
            assert(self@.commits.drop_last() =~= old(self)@.commits);
        }
        match response {
            Err(e) => Err(Error::Importer(e)),
            Ok(_) => {
                let ghost committed = self@;
                let deadline = match self.schedule.trigger {
                    Trigger::Never | Trigger::Instant => self.schedule.deadline,
                    Trigger::Interval { block_time } => Some(now.after(block_time)),
                    Trigger::Hybrid { min_block_time, max_tx_idle_time, max_block_time } => {
                        let seen = self.survey(true);
                        assert(self@.surveys.drop_last() =~= committed.surveys);
                        let latest = now.after(max_block_time);
                        let wanted = match seen.consumable_gas {
                            Some(gas) if gas > self.schedule.block_gas_limit => now.after(
                                min_block_time,
                            ),
                            Some(_) => {
                                let idle = now.after(max_tx_idle_time);
                                let spaced = now.after(min_block_time);
                                if idle.0 >= spaced.0 {
                                    idle
                                } else {
                                    spaced
                                }
                            },
                            None => latest,
                        };
                        if wanted.0 <= latest.0 {
                            Some(wanted)
                        } else {
                            Some(latest)
                        }
                    },
                };
                self.schedule.last_height = height;
                self.schedule.last_timestamp = block_time;
                self.schedule.last_block_created = now;
                self.schedule.deadline = deadline;
                Ok(())
            },
        }
    }

    /// Has the block at `height` and `block_time` produced, sealed and
    /// committed.
    pub fn produce_block(&mut self, height: BlockHeight, block_time: Tai64, now: Instant) -> (outcome:
        Result<(), Error>)
        ensures
            final(self)@.produce_block_post(old(self)@, height, block_time, now, outcome),
    {
        if self.signing_key.is_none() {
            return Err(Error::NoSigningKey);
        }
        if self.schedule.last_timestamp.0 > block_time.0 {
            return Err(Error::TimestampNotMonotonic);
        }
        let max_gas = self.schedule.block_gas_limit;
        let response = self.block_producer.produce_and_execute_block(height, block_time, max_gas);
        proof {
            self.history@ = History {
                productions: self.history@.productions.push(
                    Production { height, block_time, max_gas, response },
                ),
                ..self.history@
            };
            assert(self@.productions.drop_last() =~= old(self)@.productions);
        }
        match response {
            Err(e) => Err(Error::Producer(e)),
            Ok(produced) => self.commit_production(produced, height, block_time, now),
        }
    }

    /// Has the next block produced, as the trigger asks for it.
    pub fn produce_next_block(&mut self, now: Instant, now_tai: Tai64) -> (outcome: Result<(), Error>)
        requires
            !(old(self).schedule.trigger is Never),
        ensures
            final(self)@.produce_next_block_post(old(self)@, now, now_tai, outcome),
    {
        let height = match self.schedule.next_height() {
            None => { return Err(Error::HeightOverflow); },
            Some(height) => height,
        };
        let block_time = match self.schedule.next_time(RequestType::Trigger, now, now_tai) {
            Err(e) => { return Err(e); },
            Ok(block_time) => block_time,
        };
        self.produce_block(height, block_time, now)
    }

    /// Decides on what the pool answered: `seen` is what a look at the pool
    /// gave, and `submitted` tells whether the status that led to the look
    /// spoke of a new transaction.
    pub fn decide_on_pool(&mut self, seen: PoolState, submitted: bool, now: Instant, now_tai: Tai64) -> (outcome:
        Result<(), Error>)
        requires
            old(self).schedule.trigger is Instant || old(self).schedule.trigger is Hybrid,
        ensures
            final(self)@.pool_decision_post(old(self)@, seen, submitted, now, now_tai, outcome),
    {
        if seen.pending == 0 {
            return Ok(());
        }
        let produce = match self.schedule.trigger {
            Trigger::Instant => true,
            _ => match seen.consumable_gas {
                Some(gas) => self.schedule.full_block_due(gas, now),
                None => self.schedule.full_block_due(0, now),
            },
        };
        if produce {
            self.produce_next_block(now, now_tai)
        } else {
            if submitted {
                self.schedule.deadline = Some(self.schedule.idle_deadline(now));
            }
            Ok(())
        }
    }

    /// Takes a status of the pool. The status is a hint: what to do is
    /// decided on what the pool answers.
    pub fn on_txpool_event(&mut self, txpool_event: TxStatus, now: Instant, now_tai: Tai64) -> (outcome:
        Result<(), Error>)
        ensures
            final(self)@.on_txpool_event_post(old(self)@, txpool_event, now, now_tai, outcome),
    {
        let submitted = match txpool_event {
            TxStatus::Submitted => true,
            _ => false,
        };
        match self.schedule.trigger {
            Trigger::Instant => {
                let seen = self.survey(false);
                let ghost looked = self@;
                let outcome = self.decide_on_pool(seen, submitted, now, now_tai);
                proof {
                    Self::lemma_surveys_are_kept(
                        old(self)@,
                        looked,
                        self@,
                        seen,
                        submitted,
                        now,
                        now_tai,
                        outcome,
                    );
                }
                outcome
            },
            Trigger::Hybrid { .. } => {
                let seen = self.survey(true);
                let ghost looked = self@;
                let outcome = self.decide_on_pool(seen, submitted, now, now_tai);
                proof {
                    Self::lemma_surveys_are_kept(
                        old(self)@,
                        looked,
                        self@,
                        seen,
                        submitted,
                        now,
                        now_tai,
                        outcome,
                    );
                }
                outcome
            },
            Trigger::Never | Trigger::Interval { .. } => Ok(()),
        }
    }

    /// What the pool answered at the look before a decision stays on
    /// record over the decision.
    proof fn lemma_surveys_are_kept(
        before: TaskView<T, B, I>,
        looked: TaskView<T, B, I>,
        after: TaskView<T, B, I>,
        seen: PoolState,
        submitted: bool,
        now: Instant,
        now_tai: Tai64,
        outcome: Result<(), Error>,
    )
        requires
            looked == before.surveyed(seen),
            after.pool_decision_post(looked, seen, submitted, now, now_tai, outcome),
        ensures
            after.surveys.len() > before.surveys.len(),
            after.surveys[before.surveys.len() as int] == seen,
    {
        assert(looked.surveys[before.surveys.len() as int] == seen);
        if after.surveys.len() == looked.surveys.len() + 1 && after.surveys.drop_last()
            == looked.surveys {
            assert(after.surveys.drop_last()[before.surveys.len() as int]
                == after.surveys[before.surveys.len() as int]);
        }
    }

    /// Takes the timer's going off.
    pub fn on_timer(&mut self, now: Instant, now_tai: Tai64) -> (outcome: Result<(), Error>)
        ensures
            final(self)@.on_timer_post(old(self)@, now, now_tai, outcome),
    {
        match self.schedule.trigger {
            Trigger::Instant | Trigger::Never => Ok(()),
            Trigger::Interval { .. } | Trigger::Hybrid { .. } => self.produce_next_block(
                now,
                now_tai,
            ),
        }
    }

    /// Produces the blocks that an operator asked for, one after the
    /// other, each through the same producer and importer as any block.
    /// The first block carries the time the operator chose, where one was
    /// chosen; the trigger policy has no say in when.
    pub fn produce_manual_blocks(&mut self, block_production: ManualProduction, now: Instant) -> (outcome:
        Result<(), Error>)
        ensures
            final(self)@.manual_post(old(self)@, block_production, now, outcome),
    {
        let ghost before = old(self)@;
        let first_time = match block_production.start_time {
            Some(time) => time,
            None => match self.schedule.next_time(RequestType::Manual, now, Tai64(0)) {
                Err(e) => { return Err(e); },
                Ok(time) => time,
            },
        };
        let mut block_time = first_time;
        let mut produced: u32 = 0;
        assert(self@.productions.subrange(0, self@.productions.len() as int)
            =~= self@.productions);
        assert(self@.commits.subrange(0, self@.commits.len() as int) =~= self@.commits);
        assert(self@.manual_chain(before, seq![before], first_time, now, 0));
        while produced < block_production.number_of_blocks
            invariant
                before == old(self)@,
                before.manual_first_time(block_production.start_time, now) == Ok::<Tai64, Error>(
                    first_time,
                ),
                produced <= block_production.number_of_blocks,
                self@.manual_progress(before, first_time, now, produced as nat),
                produced == 0 ==> block_time == first_time,
                produced > 0 ==> block_time.0 == self.schedule.last_timestamp.0
                    + TaskView::<T, B, I>::manual_step_secs(before.schedule.trigger),
            decreases block_production.number_of_blocks - produced,
        {
            let ghost mid = self@;
            let height = match self.schedule.next_height() {
                None => {
                    assert(self@.manual_failed_after(
                        before,
                        before.manual_first_time(block_production.start_time, now)->Ok_0,
                        now,
                        block_production.number_of_blocks as nat,
                        produced as nat,
                        mid,
                        Error::HeightOverflow,
                    ));
                    return Err(Error::HeightOverflow);
                },
                Some(height) => height,
            };
            assert(block_time == TaskView::<T, B, I>::manual_block_time(
                mid,
                first_time,
                produced as nat,
            ));
            match self.produce_block(height, block_time, now) {
                Err(e) => {
                    proof {
                        TaskView::lemma_one_block_at_a_time(
                            mid,
                            self@,
                            height,
                            block_time,
                            now,
                            Err(e),
                        );
                        assert(self@.manual_failed_after(
                            before,
                            before.manual_first_time(block_production.start_time, now)->Ok_0,
                            now,
                            block_production.number_of_blocks as nat,
                            produced as nat,
                            mid,
                            e,
                        ));
                    }
                    return Err(e);
                },
                Ok(_) => {},
            }
            proof {
                TaskView::lemma_manual_progress_step(
                    before,
                    mid,
                    self@,
                    first_time,
                    height,
                    block_time,
                    now,
                    produced as nat,
                );
            }
            produced = produced + 1;
            block_time = match self.schedule.next_time(RequestType::Manual, now, Tai64(0)) {
                Err(e) => {
                    assert(self@.manual_failed_after(
                        before,
                        before.manual_first_time(block_production.start_time, now)->Ok_0,
                        now,
                        block_production.number_of_blocks as nat,
                        produced as nat,
                        self@,
                        e,
                    ));
                    return Err(e);
                },
                Ok(time) => time,
            };
            proof {
                crate::poa::config::Duration::lemma_millis(0);
            }
        }
        Ok(())
    }

    /// Produces `number_of_blocks` blocks for an operator, the first at
    /// `start_time` where one is given.
    pub fn manually_produce_block(&mut self, start_time: Option<Tai64>, number_of_blocks: u32, now: Instant) -> (outcome:
        Result<(), Error>)
        ensures
            final(self)@.manual_post(
                old(self)@,
                ManualProduction { start_time, number_of_blocks },
                now,
                outcome,
            ),
    {
        self.produce_manual_blocks(ManualProduction { start_time, number_of_blocks }, now)
    }

    /// Takes one event.
    pub fn on_event(&mut self, event: Event, now: Instant, now_tai: Tai64) -> (step: Result<Step, Error>)
        ensures
            final(self)@.run_post(old(self)@, event, now, now_tai, step),
    {
        match event {
            Event::Shutdown => Ok(Step { should_continue: false, response: None }),
            Event::ManualBlocks(request) => {
                let outcome = self.produce_manual_blocks(request, now);
                Ok(Step { should_continue: true, response: Some(outcome) })
            },
            Event::TxPool(None) => Ok(Step { should_continue: false, response: None }),
            Event::TxPool(Some(status)) => match self.on_txpool_event(status, now, now_tai) {
                Err(e) => Err(e),
                Ok(_) => Ok(Step { should_continue: true, response: None }),
            },
            Event::Timer => match self.on_timer(now, now_tai) {
                Err(e) => Err(e),
                Ok(_) => Ok(Step { should_continue: true, response: None }),
            },
        }
    }
}

impl<T, B, I> RunnableTask for Task<T, B, I> where
    T: TransactionPool,
    B: BlockProducer,
    I: BlockImporter<Database = B::Database>,
 {
    type Event = TimedEvent;

    type Error = Error;

    /// The scheduler takes the event at the readings that come with it, as
    /// `run_post` tells, and goes on as the step tells.
    open spec fn steps(&self, after: &Self, event: TimedEvent, outcome: Result<bool, Error>) -> bool {
        match outcome {
            Ok(go_on) => exists|step: Step|
                step.should_continue == go_on && #[trigger] after@.run_post(
                    self@,
                    event.event,
                    event.now,
                    event.now_tai,
                    Ok(step),
                ),
            Err(e) => after@.run_post(self@, event.event, event.now, event.now_tai, Err(e)),
        }
    }

    /// The scheduler holds nothing that has to be released.
    open spec fn releases(&self, after: &Self, outcome: Result<(), Error>) -> bool {
        outcome.is_ok() && *after == *self
    }

    fn run(&mut self, event: TimedEvent) -> (outcome: Result<bool, Error>) {
        match self.on_event(event.event, event.now, event.now_tai) {
            Ok(step) => Ok(step.should_continue),
            Err(e) => Err(e),
        }
    }

    /// The scheduler holds nothing that has to be released.
    fn shutdown(&mut self) -> (outcome: Result<(), Error>) {
        Ok(())
    }
}

} // verus!
