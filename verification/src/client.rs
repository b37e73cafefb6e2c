//! The shapes of the node's query interface, as a client holds them.

pub mod schema;
