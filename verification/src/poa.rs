//! The proof-of-authority scheduler: it decides when a block is produced,
//! has it produced, seals it and has it committed.

pub mod adapters;
pub mod config;
pub mod mocks;
pub mod ports;
pub mod schedule;
pub mod service;
pub mod test_context;
