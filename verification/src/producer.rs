//! The block producer: it checks that a new block continues the chain,
//! assembles its header and hands it to the executor.

pub mod block_producer;
pub mod config;
pub mod mocks;
pub mod ports;
pub mod test_context;
