//! Blocks, headers and the primitive values they are made of.

pub mod consensus;
pub mod header;
pub mod primitives;
pub mod transaction;
pub mod block;
pub mod sealed;
