//! Block production for a proof-of-authority node.
//!
//! - `blockchain`: blocks, headers and transactions, and how a block is
//!   named by the digest of its header.
//! - `producer`: the validation pipeline that a new block passes before it
//!   is executed.
//! - `poa`: the scheduler that decides when a block is produced, has it
//!   produced, seals it and has it committed.
//! - `services`: the lifecycle of a long-running task, and the values that
//!   services hand to each other.
//! - `client`: the shapes of the node's query interface.
//! - `p2p_test_helpers`: the layout of a network of nodes for scenarios.
//! - `outside`: what is taken from other crates, with what is believed of
//!   it.

pub mod blockchain;
pub mod client;
pub mod lists;
pub mod outside;
pub mod p2p_test_helpers;
pub mod poa;
pub mod producer;
pub mod services;
pub mod text;
