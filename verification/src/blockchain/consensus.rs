//! The consensus a block is sealed under.

use vstd::prelude::*;

verus! {

/// The kind of consensus that sealed a block.
#[derive(Clone, Copy, Debug, PartialEq, Eq, Structural)]
pub enum ConsensusType {
    /// Proof of authority.
    PoA,
}

/// A signature in compact form: sixty-four bytes.
#[derive(Clone, Copy, Debug, PartialEq, Eq)]
pub struct Signature {
    pub bytes: [u8; 64],
}

impl View for Signature {
    type V = Seq<u8>;

    open spec fn view(&self) -> Seq<u8> {
        self.bytes@
    }
}

/// The seal of a block under proof of authority: the authority's signature
/// over the block's identifier.
#[derive(Clone, Copy, Debug, PartialEq, Eq)]
pub struct PoAConsensus {
    pub signature: Signature,
}

/// The seal of a block.
#[derive(Clone, Copy, Debug, PartialEq, Eq)]
pub enum Consensus {
    /// Sealed by the authority.
    PoA(PoAConsensus),
}

} // verus!
