//! Blocks under seal.

use vstd::prelude::*;
use crate::blockchain::block::Block;
use crate::blockchain::consensus::Consensus;

verus! {

/// A block with the seal that the consensus put on it.
#[derive(Debug, PartialEq, Eq)]
pub struct SealedBlock {
    /// The block.
    pub entity: Block,
    /// Its seal.
    pub consensus: Consensus,
}

} // verus!
