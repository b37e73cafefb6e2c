//! What the services of a node hand to each other, and the lifecycle that
//! every service goes through.

pub mod block_importer;
pub mod executor;
pub mod state;
pub mod txpool;
pub mod watch;
pub mod service;
