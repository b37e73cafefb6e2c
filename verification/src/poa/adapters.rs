//! The block producer behind the scheduler's port.

use vstd::prelude::*;
use crate::blockchain::primitives::{BlockHeight, Tai64};
use crate::poa::ports::BlockProducer;
use crate::producer::block_producer::{Producer, ProductionError};
use crate::producer::ports::{BlockProducerDatabase, Executor, Relayer, TxPool};
use crate::services::executor::UncommittedResult;

verus! {

impl<Database, Pool, Exec, Relay> BlockProducer for Producer<Database, Pool, Exec, Relay> where
    Database: BlockProducerDatabase,
    Pool: TxPool,
    Exec: Executor,
    Relay: Relayer,
 {
    type Database = Exec::DatabaseTransaction;

    /// The producer answers as its pipeline tells, over what its own ports
    /// may answer.
    open spec fn produces(
        &self,
        after: &Self,
        height: BlockHeight,
        block_time: Tai64,
        max_gas: u64,
        response: Result<UncommittedResult<Exec::DatabaseTransaction>, ProductionError>,
    ) -> bool {
        self.produced(after, height, block_time, max_gas, response)
    }

    /// Hands the request to the producer. The answer is the producer's:
    /// its validation decides whether the executor is asked, and where it
    /// is, the executor's answer is the answer.
    fn produce_and_execute_block(&mut self, height: BlockHeight, block_time: Tai64, max_gas: u64) -> (response:
        Result<UncommittedResult<Exec::DatabaseTransaction>, ProductionError>)
    {
        Producer::produce_and_execute_block(self, height, block_time, max_gas)
    }
}

} // verus!
