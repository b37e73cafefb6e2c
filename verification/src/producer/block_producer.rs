//! The validation pipeline of block production.

use vstd::prelude::*;
use crate::blockchain::block::{CompressedBlock, PartialFuelBlock};
use crate::blockchain::header::{ApplicationHeader, ConsensusHeader, PartialBlockHeader};
use crate::blockchain::primitives::{BlockHeight, Bytes32, DaBlockHeight, Empty, Tai64};
use crate::blockchain::transaction::Transaction;
use crate::producer::config::Config;
use crate::producer::ports::{
    BlockProducerDatabase, Executor, Relayer, StorageError, StorageResult, TxPool,
};
use crate::services::executor::{Error as ExecutorError, ExecutionBlock, UncommittedResult};

verus! {

/// Why the producer itself refused to produce.
#[derive(Clone, Copy, Debug, PartialEq, Eq)]
#[non_exhaustive]
pub enum Error {
    /// The relayer's best finalized height lies below the height that the
    /// previous block has committed to.
    InvalidDaFinalizationState {
        /// The relayer's best finalized height.
        best: DaBlockHeight,
        /// The height recorded in the previous block.
        previous_block: DaBlockHeight,
    },
    /// Height zero is the genesis block, which is never produced.
    GenesisBlock,
}

/// Why a production failed: the producer refused, the database could not
/// give the previous block, or the executor failed. The cause is carried
/// as it was raised.
#[derive(Clone, Copy, Debug, PartialEq, Eq)]
pub enum ProductionError {
    /// The producer's own validation refused.
    Producer(Error),
    /// The database could not give what the producer builds on.
    Storage(StorageError),
    /// The executor failed.
    Executor(ExecutorError),
}

impl ProductionError {
    /// The producer's own error, where that is the cause.
    pub fn as_producer_error(&self) -> (e: Option<Error>)
        ensures
            e == (match *self {
                ProductionError::Producer(inner) => Some(inner),
                _ => None,
            }),
    {
        match self {
            ProductionError::Producer(inner) => Some(*inner),
            _ => None,
        }
    }

    /// The executor's error, where that is the cause.
    pub fn as_executor_error(&self) -> (e: Option<ExecutorError>)
        ensures
            e == (match *self {
                ProductionError::Executor(inner) => Some(inner),
                _ => None,
            }),
    {
        match self {
            ProductionError::Executor(inner) => Some(*inner),
            _ => None,
        }
    }

    /// The database's error, where that is the cause.
    pub fn as_storage_error(&self) -> (e: Option<StorageError>)
        ensures
            e == (match *self {
                ProductionError::Storage(inner) => Some(inner),
                _ => None,
            }),
    {
        match self {
            ProductionError::Storage(inner) => Some(*inner),
            _ => None,
        }
    }
}

/// What the producer reads of the block before the one it produces.
#[derive(Clone, Copy, Debug, PartialEq, Eq)]
pub struct PreviousBlockInfo {
    /// The Merkle root of the headers up to the previous block.
    pub prev_root: Bytes32,
    /// The data-availability height that the previous block committed to.
    pub da_height: DaBlockHeight,
}

/// What is read of a previous block with the data-availability height
/// `da_height`, given what the database answered for the root of the
/// headers up to it: the root and the height, or the database's error.
pub open spec fn spec_previous_info(
    da_height: DaBlockHeight,
    root: StorageResult<Bytes32>,
) -> StorageResult<PreviousBlockInfo> {
    match root {
        Err(e) => Err(e),
        Ok(prev_root) => Ok(PreviousBlockInfo { prev_root, da_height }),
    }
}

/// Reads of the previous block, and of what the database answered for the
/// root of the headers up to it, what the producer builds on.
pub fn previous_info(previous_block: &CompressedBlock, root: StorageResult<Bytes32>) -> (info:
    StorageResult<PreviousBlockInfo>)
    ensures
        info == spec_previous_info(previous_block@.header.application.da_height, root),
{
    match root {
        Err(e) => Err(e),
        Ok(prev_root) => Ok(
            PreviousBlockInfo { prev_root, da_height: previous_block.header().da_height() },
        ),
    }
}

/// What the database answered when it was asked for the block before the
/// one to produce: for the block, and, where it gave the block, for the
/// root of the headers up to it.
pub struct PreviousBlockAnswers {
    /// The height that the database was asked for, both times.
    pub height: BlockHeight,
    /// What it answered for the block.
    pub block: StorageResult<CompressedBlock>,
    /// What it answered for the root; none where it was not asked.
    pub root: Option<StorageResult<Bytes32>>,
}

impl PreviousBlockAnswers {
    /// The root was asked for exactly where the database gave the block.
    pub open spec fn asked_in_order(self) -> bool {
        self.root.is_some() == self.block.is_ok()
    }

    /// What the answers give of the previous block: the error of the
    /// first answer that is one, and else the root with the
    /// data-availability height of the block.
    pub open spec fn info(self) -> StorageResult<PreviousBlockInfo> {
        match self.block {
            Err(e) => Err(e),
            Ok(block) => spec_previous_info(
                block@.header.application.da_height,
                self.root.unwrap(),
            ),
        }
    }
}

/// The data-availability height of a new block: the relayer's best, unless
/// that lies below what the previous block committed to.
pub open spec fn spec_select_new_da_height(
    previous_da_height: DaBlockHeight,
    best: DaBlockHeight,
) -> Result<DaBlockHeight, Error> {
    if best.0 < previous_da_height.0 {
        Err(Error::InvalidDaFinalizationState { best, previous_block: previous_da_height })
    } else {
        Ok(best)
    }
}

/// Selects the data-availability height of a new block.
pub fn select_new_da_height(previous_da_height: DaBlockHeight, best: DaBlockHeight) -> (selected:
    Result<DaBlockHeight, Error>)
    ensures
        selected == spec_select_new_da_height(previous_da_height, best),
{
    if best.0 < previous_da_height.0 {
        Err(Error::InvalidDaFinalizationState { best, previous_block: previous_da_height })
    } else {
        Ok(best)
    }
}

/// The partial header of the block at `height` and `block_time`, given what
/// the database answered for the block before it and the relayer's best
/// finalized height; or why there is none.
pub open spec fn spec_new_header(
    height: BlockHeight,
    block_time: Tai64,
    previous: StorageResult<PreviousBlockInfo>,
    best: DaBlockHeight,
) -> Result<PartialBlockHeader, ProductionError> {
    if height.0 == 0 {
        Err(ProductionError::Producer(Error::GenesisBlock))
    } else {
        match previous {
            Err(e) => Err(ProductionError::Storage(e)),
            Ok(info) => match spec_select_new_da_height(info.da_height, best) {
                Err(e) => Err(ProductionError::Producer(e)),
                Ok(da_height) => Ok(
                    PartialBlockHeader {
                        application: ApplicationHeader { da_height, generated: Empty },
                        consensus: ConsensusHeader {
                            prev_root: info.prev_root,
                            height,
                            time: block_time,
                            generated: Empty,
                        },
                    },
                ),
            },
        }
    }
}

/// What a production answers, given what the executor answered.
pub open spec fn production_outcome<T>(
    response: Result<UncommittedResult<T>, ExecutorError>,
) -> Result<UncommittedResult<T>, ProductionError> {
    match response {
        Ok(result) => Ok(result),
        Err(e) => Err(ProductionError::Executor(e)),
    }
}

/// One production as the producer records it: what was asked for, and what
/// each port answered as far as it was asked.
pub struct Production<DatabaseTransaction> {
    /// The height asked for.
    pub height: BlockHeight,
    /// The time asked for.
    pub block_time: Tai64,
    /// The gas ceiling asked for.
    pub max_gas: u64,
    /// The transactions that the pool handed out, in its order.
    pub transactions: Vec<Transaction>,
    /// What the database answered for the previous block; none where it
    /// was not asked.
    pub database: Option<PreviousBlockAnswers>,
    /// What the database gave of the previous block; none where it was not
    /// asked.
    pub previous: Option<StorageResult<PreviousBlockInfo>>,
    /// The relayer's best finalized height; none where it was not asked.
    pub best: Option<DaBlockHeight>,
    /// The block that the executor was handed; none where it was not asked.
    pub executed: Option<ExecutionBlock>,
    /// What the executor answered; none where it was not asked.
    pub response: Option<Result<UncommittedResult<DatabaseTransaction>, ExecutorError>>,
}

impl<DatabaseTransaction> Production<DatabaseTransaction> {
    /// The production went the way of the pipeline. At height zero no port
    /// but the pool was asked. Above, the database was asked for the block
    /// one below the height to produce and, where it gave that block, for
    /// the root of the headers up to it, and what is built on is read of
    /// these answers; where the database gave both, the relayer was asked;
    /// and where
    /// the relayer's height did not lie below the previous block's, the
    /// executor was handed a block under production with the assembled
    /// header and the very transactions that the pool handed out, in their
    /// order.
    pub open spec fn follows_pipeline(self) -> bool {
        &&& self.previous.is_some() == (self.height.0 > 0)
        &&& match self.database {
            None => self.previous.is_none(),
            Some(answers) => {
                &&& answers.height.0 + 1 == self.height.0
                &&& answers.asked_in_order()
                &&& self.previous == Some(answers.info())
            },
        }
        &&& self.best.is_some() == (self.previous matches Some(Ok(_)))
        &&& self.response.is_some() == self.executed.is_some()
        &&& match self.header() {
            Err(_) => self.executed.is_none(),
            Ok(header) => self.executed matches Some(ExecutionBlock::Production(block))
                && block.header == header && block.transactions == self.transactions,
        }
    }

    /// The header that the validation assembles from what the ports
    /// answered, or why it assembles none. It is read of a production that
    /// follows the pipeline: there each answer that counts was given.
    pub open spec fn header(self) -> Result<PartialBlockHeader, ProductionError> {
        spec_new_header(self.height, self.block_time, self.previous.unwrap(), self.best.unwrap())
    }

    /// What the production answers: the validation's refusal, or what the
    /// executor answered, its error carried as raised.
    pub open spec fn outcome(self) -> Result<
        UncommittedResult<DatabaseTransaction>,
        ProductionError,
    > {
        match self.header() {
            Err(e) => Err(e),
            Ok(_) => production_outcome(self.response.unwrap()),
        }
    }
}

/// The block producer with its ports, and the record of its productions.
pub struct Producer<Database, Pool, Exec: Executor, Relay> {
    /// The settings.
    pub config: Config,
    /// The blocks to build on.
    pub db: Database,
    /// The transactions that wait for a block.
    pub txpool: Pool,
    /// The executor.
    pub executor: Exec,
    /// The view on the data-availability chain.
    pub relayer: Relay,
    /// The productions so far, oldest first, for the proofs.
    pub history: Ghost<Seq<Production<Exec::DatabaseTransaction>>>,
}

impl<Database, Pool, Exec, Relay> Producer<Database, Pool, Exec, Relay> where
    Database: BlockProducerDatabase,
    Pool: TxPool,
    Exec: Executor,
    Relay: Relayer,
 {
    /// Every answer on record in `production` is one that the port of this
    /// producer that was asked may give: the pool for the height and the
    /// gas ceiling asked for, the database for the height it was asked
    /// for, the relayer, and the executor, which is left as that of
    /// `after`. A port that was not asked is as it was.
    pub open spec fn answered(
        &self,
        after: &Self,
        production: Production<Exec::DatabaseTransaction>,
    ) -> bool {
        &&& after.config == self.config
        &&& after.db == self.db
        &&& after.txpool == self.txpool
        &&& after.relayer == self.relayer
        &&& self.txpool.hands_out(production.height, production.max_gas, production.transactions)
        &&& production.database matches Some(answers) ==> {
            &&& self.db.gives_block(answers.height, answers.block)
            &&& answers.root matches Some(root) ==> self.db.gives_root(answers.height, root)
        }
        &&& production.best matches Some(best) ==> self.relayer.reports(best)
        &&& match production.executed {
            Some(block) => self.executor.executes(
                &after.executor,
                block,
                production.response.unwrap(),
            ),
            None => after.executor == self.executor,
        }
    }

    /// What holds after the producer of `self` was asked for the block at
    /// `height` and `block_time` within `max_gas`, answered `result` and
    /// was left as `after`: its record has grown by one production, for
    /// what was asked, which went the way of the pipeline, whose answers
    /// are the ports', and whose outcome is the result.
    pub open spec fn produced(
        &self,
        after: &Self,
        height: BlockHeight,
        block_time: Tai64,
        max_gas: u64,
        result: Result<UncommittedResult<Exec::DatabaseTransaction>, ProductionError>,
    ) -> bool {
        let production = after.history@.last();
        &&& after.history@.len() == self.history@.len() + 1
        &&& after.history@.drop_last() == self.history@
        &&& production.height == height
        &&& production.block_time == block_time
        &&& production.max_gas == max_gas
        &&& production.follows_pipeline()
        &&& self.answered(after, production)
        &&& result == production.outcome()
    }

    /// A producer over the given ports, which has produced nothing yet.
    pub fn new(config: Config, db: Database, txpool: Pool, executor: Exec, relayer: Relay) -> (producer:
        Self)
        ensures
            producer.config == config,
            producer.db == db,
            producer.txpool == txpool,
            producer.executor == executor,
            producer.relayer == relayer,
            producer.history@.len() == 0,
    {
        Producer { config, db, txpool, executor, relayer, history: Ghost(Seq::empty()) }
    }

    /// Reads from the database what the producer needs of the block before
    /// `height`: it asks for the block one below `height`, and, where the
    /// database gives it, for the root of the headers up to that block.
    /// What comes back with the result is the record of these answers; the
    /// result is what the answers give.
    fn previous_block_info(&self, height: BlockHeight) -> (read: (
        StorageResult<PreviousBlockInfo>,
        Ghost<PreviousBlockAnswers>,
    ))
        requires
            height.0 > 0,
        ensures
            read.1@.height == BlockHeight((height.0 - 1) as u32),
            read.1@.asked_in_order(),
            read.0 == read.1@.info(),
            self.db.gives_block(read.1@.height, read.1@.block),
            read.1@.root matches Some(root) ==> self.db.gives_root(read.1@.height, root),
    {
        let prev_height = BlockHeight(height.0 - 1);
        let block = self.db.get_block(&prev_height);
        match block {
            Err(e) => (Err(e), Ghost(PreviousBlockAnswers { height: prev_height, block, root: None })),
            Ok(previous_block) => {
                let root = self.db.block_header_merkle_root(&prev_height);
                let info = previous_info(&previous_block, root);
                (info, Ghost(PreviousBlockAnswers { height: prev_height, block, root: Some(root) }))
            },
        }
    }

    /// Produces the block at `height` and `block_time` and executes it,
    /// leaving the result uncommitted.
    ///
    /// Height zero is refused as the genesis block. The block before
    /// `height` must be in the database, and the relayer's best finalized
    /// height must not lie below the height that block committed to. The
    /// executor is then handed, once, a block with the assembled header and
    /// the pool's snapshot of includable transactions in the pool's order;
    /// what it answers is the answer, its error carried as raised. Where
    /// the validation refuses, the executor is not called. Every port is
    /// asked anew: nothing is kept from one production to the next.
    pub fn produce_and_execute_block(&mut self, height: BlockHeight, block_time: Tai64, max_gas: u64) -> (result:
        Result<UncommittedResult<Exec::DatabaseTransaction>, ProductionError>)
        ensures
            old(self).produced(final(self), height, block_time, max_gas, result),
    {
        let best_transactions = self.txpool.get_includable_txs(height, max_gas);
        let ghost mut production = Production {
            height,
            block_time,
            max_gas,
            transactions: best_transactions,
            database: None,
            previous: None,
            best: None,
            executed: None,
            response: None,
        };
        if height.0 == 0 {
            proof {
                self.history@ = self.history@.push(production);
                assert(self.history@.drop_last() =~= old(self).history@);
            }
            return Err(ProductionError::Producer(Error::GenesisBlock));
        }
        let (previous, Ghost(answers)) = self.previous_block_info(height);
        proof {
            production.database = Some(answers);
            production.previous = Some(previous);
        }
        let info = match previous {
            Err(e) => {
                proof {
                    self.history@ = self.history@.push(production);
                    assert(self.history@.drop_last() =~= old(self).history@);
                }
                return Err(ProductionError::Storage(e));
            },
            Ok(info) => info,
        };
        let best = self.relayer.best_finalized_height();
        proof {
            production.best = Some(best);
        }
        let da_height = match select_new_da_height(info.da_height, best) {
            Err(e) => {
                proof {
                    self.history@ = self.history@.push(production);
                    assert(self.history@.drop_last() =~= old(self).history@);
                }
                return Err(ProductionError::Producer(e));
            },
            Ok(da_height) => da_height,
        };
        let header = PartialBlockHeader {
            application: ApplicationHeader { da_height, generated: Empty },
            consensus: ConsensusHeader {
                prev_root: info.prev_root,
                height,
                time: block_time,
                generated: Empty,
            },
        };
        let block = ExecutionBlock::Production(PartialFuelBlock::new(header, best_transactions));
        let response = self.executor.execute_without_commit(block);
        proof {
            production.executed = Some(block);
            production.response = Some(response);
            self.history@ = self.history@.push(production);
            assert(self.history@.drop_last() =~= old(self).history@);
        }
        match response {
            Ok(result) => Ok(result),
            Err(e) => Err(ProductionError::Executor(e)),
        }
    }
}

/// A production at height zero is refused as the genesis block, and no
/// port but the pool is asked, whatever the ports hold.
pub proof fn lemma_genesis_is_never_produced<T>(production: Production<T>)
    requires
        production.follows_pipeline(),
        production.height.0 == 0,
    ensures
        production.outcome() == Err::<UncommittedResult<T>, ProductionError>(
            ProductionError::Producer(Error::GenesisBlock),
        ),
        production.previous.is_none(),
        production.best.is_none(),
        production.executed.is_none(),
{
}

/// A production above height zero builds on what the database answers
/// for the height one below: where the database does not give the block,
/// or gives the block and not the root of the headers up to it, its error
/// is the outcome; where it gives both, the production builds on that
/// root and on the data-availability height of that block.
pub proof fn lemma_production_builds_on_the_database<T>(production: Production<T>)
    requires
        production.follows_pipeline(),
        production.height.0 > 0,
    ensures
        production.database is Some,
        production.database->Some_0.height.0 == production.height.0 - 1,
        match production.database->Some_0.block {
            Err(e) => production.database->Some_0.root.is_none() && production.outcome()
                == Err::<UncommittedResult<T>, ProductionError>(ProductionError::Storage(e)),
            Ok(block) => match production.database->Some_0.root {
                None => false,
                Some(Err(e)) => production.outcome() == Err::<
                    UncommittedResult<T>,
                    ProductionError,
                >(ProductionError::Storage(e)),
                Some(Ok(prev_root)) => production.previous == Some(
                    Ok::<PreviousBlockInfo, StorageError>(
                        PreviousBlockInfo {
                            prev_root,
                            da_height: block@.header.application.da_height,
                        },
                    ),
                ),
            },
        },
{
}

/// A production above height zero whose previous block the database does
/// not give fails with the database's error, and neither the relayer nor
/// the executor is asked.
pub proof fn lemma_missing_previous_block_is_refused<T>(production: Production<T>, e: StorageError)
    requires
        production.follows_pipeline(),
        production.height.0 > 0,
        production.previous == Some(Err::<PreviousBlockInfo, StorageError>(e)),
    ensures
        production.outcome() == Err::<UncommittedResult<T>, ProductionError>(
            ProductionError::Storage(e),
        ),
        production.best.is_none(),
        production.executed.is_none(),
{
}

/// A production above height zero whose previous block is there, and whose
/// relayer has not fallen behind that block, goes to the executor, and
/// succeeds exactly where the executor does, with the executor's result.
/// The block that is executed stands at the height and time asked for, on
/// the previous root, at the relayer's height.
pub proof fn lemma_continuing_production_is_executed<T>(
    production: Production<T>,
    info: PreviousBlockInfo,
    best: DaBlockHeight,
)
    requires
        production.follows_pipeline(),
        production.height.0 > 0,
        production.previous == Some(Ok::<PreviousBlockInfo, StorageError>(info)),
        production.best == Some(best),
        info.da_height.0 <= best.0,
    ensures
        production.executed matches Some(ExecutionBlock::Production(block)) && {
            &&& block.header.consensus.height == production.height
            &&& block.header.consensus.time == production.block_time
            &&& block.header.consensus.prev_root == info.prev_root
            &&& block.header.application.da_height == best
            &&& block.transactions == production.transactions
        },
        production.response matches Some(response) && production.outcome() == production_outcome(
            response,
        ) && production.outcome().is_ok() == response.is_ok(),
{
}

/// A production whose relayer has fallen behind the previous block fails,
/// the error names both heights, and the executor is not asked.
pub proof fn lemma_regressing_production_is_refused<T>(
    production: Production<T>,
    info: PreviousBlockInfo,
    best: DaBlockHeight,
)
    requires
        production.follows_pipeline(),
        production.height.0 > 0,
        production.previous == Some(Ok::<PreviousBlockInfo, StorageError>(info)),
        production.best == Some(best),
        best.0 < info.da_height.0,
    ensures
        production.outcome() == Err::<UncommittedResult<T>, ProductionError>(
            ProductionError::Producer(
                Error::InvalidDaFinalizationState { best, previous_block: info.da_height },
            ),
        ),
        production.executed.is_none(),
{
}

/// Height zero is never produced, whatever the database and the relayer
/// hold.
pub proof fn lemma_genesis_height_is_refused(
    block_time: Tai64,
    previous: StorageResult<PreviousBlockInfo>,
    best: DaBlockHeight,
)
    ensures
        spec_new_header(BlockHeight(0), block_time, previous, best) == Err::<
            PartialBlockHeader,
            ProductionError,
        >(ProductionError::Producer(Error::GenesisBlock)),
{
}

/// Above height zero, a header is assembled exactly when the previous block
/// is there and the relayer's best finalized height is not below the height
/// that block committed to; the header then takes the relayer's height, the
/// previous root, and the height and time asked for. Where the previous
/// block is missing the database's error is the answer.
pub proof fn lemma_height_continuity(
    height: BlockHeight,
    block_time: Tai64,
    previous: StorageResult<PreviousBlockInfo>,
    best: DaBlockHeight,
)
    requires
        height.0 > 0,
    ensures
        spec_new_header(height, block_time, previous, best).is_ok() <==> (previous matches Ok(info)
            && info.da_height.0 <= best.0),
        previous matches Err(e) ==> spec_new_header(height, block_time, previous, best) == Err::<
            PartialBlockHeader,
            ProductionError,
        >(ProductionError::Storage(e)),
        spec_new_header(height, block_time, previous, best) matches Ok(header) ==> {
            &&& header.consensus.height == height
            &&& header.consensus.time == block_time
            &&& header.application.da_height == best
            &&& previous matches Ok(info) && header.consensus.prev_root == info.prev_root
        },
{
}

/// Where the relayer's best finalized height lies below the height that the
/// previous block committed to, production above height zero fails, and
/// the error names both heights.
pub proof fn lemma_da_height_never_regresses(
    height: BlockHeight,
    block_time: Tai64,
    info: PreviousBlockInfo,
    best: DaBlockHeight,
)
    requires
        height.0 > 0,
        best.0 < info.da_height.0,
    ensures
        spec_new_header(height, block_time, Ok(info), best) == Err::<
            PartialBlockHeader,
            ProductionError,
        >(
            ProductionError::Producer(
                Error::InvalidDaFinalizationState { best, previous_block: info.da_height },
            ),
        ),
{
}

} // verus!
