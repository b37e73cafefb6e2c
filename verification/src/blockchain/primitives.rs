//! Fixed-size identifiers, heights and timestamps.

use vstd::prelude::*;
use vstd::std_specs::cmp::PartialEqSpecImpl;

verus! {

/// Thirty-two bytes: a digest, a Merkle root or an identifier.
#[derive(Clone, Copy, Debug, Eq, Hash)]
pub struct Bytes32 {
    pub bytes: [u8; 32],
}

impl View for Bytes32 {
    type V = Seq<u8>;

    open spec fn view(&self) -> Seq<u8> {
        self.bytes@
    }
}

impl PartialEq for Bytes32 {
    fn eq(&self, other: &Self) -> (r: bool) {
        let mut i: usize = 0;
        while i < 32
            invariant
                i <= 32,
                forall|j: int| 0 <= j < i ==> self.bytes[j] == other.bytes[j],
            decreases 32 - i,
        {
            if self.bytes[i] != other.bytes[i] {
                return false;
            }
            i += 1;
        }
        assert(self.bytes =~= other.bytes);
        true
    }
}

impl PartialEqSpecImpl for Bytes32 {
    open spec fn obeys_eq_spec() -> bool {
        true
    }

    open spec fn eq_spec(&self, other: &Self) -> bool {
        *self == *other
    }
}

impl Bytes32 {
    /// Wraps the given bytes.
    pub fn new(bytes: [u8; 32]) -> (r: Self)
        ensures
            r.bytes == bytes,
    {
        Bytes32 { bytes }
    }

    /// Thirty-two zero bytes.
    pub open spec fn zero_bytes() -> Seq<u8> {
        Seq::new(32, |i: int| 0u8)
    }

    /// The value whose bytes are all zero.
    pub fn zeroed() -> (r: Self)
        ensures
            r@ == Self::zero_bytes(),
    {
        let mut bytes = [0u8; 32];
        let mut i: usize = 0;
        while i < 32
            invariant
                i <= 32,
                forall|j: int| 0 <= j < i ==> bytes[j] == 0u8,
            decreases 32 - i,
        {
            bytes[i] = 0u8;
            i += 1;
        }
        let r = Bytes32 { bytes };
        assert(r@ =~= Self::zero_bytes());
        r
    }

    /// The bytes as a growable vector, in order.
    pub fn to_vec(&self) -> (v: Vec<u8>)
        ensures
            v@ == self@,
    {
        let mut v: Vec<u8> = Vec::new();
        let mut i: usize = 0;
        while i < 32
            invariant
                i <= 32,
                v@ == self@.subrange(0, i as int),
            decreases 32 - i,
        {
            v.push(self.bytes[i]);
            assert(v@ =~= self@.subrange(0, i + 1));
            i += 1;
        }
        assert(v@ =~= self@);
        v
    }

    /// Two values are the same value exactly when their bytes agree.
    pub proof fn lemma_view_injective(a: Bytes32, b: Bytes32)
        ensures
            a@ == b@ <==> a == b,
    {
        if a@ == b@ {
            assert(a.bytes =~= b.bytes);
        }
    }
}

impl Default for Bytes32 {
    fn default() -> (r: Self)
        ensures
            r@ == Self::zero_bytes(),
    {
        Bytes32::zeroed()
    }
}

/// Identifier of a transaction.
pub type TxId = Bytes32;

/// Identifier of a message produced by a transaction.
pub type MessageId = Bytes32;

/// Identifier of a block: the digest of its header.
#[derive(Clone, Copy, Debug, PartialEq, Eq, Hash, Default)]
pub struct BlockId(pub Bytes32);

/// Height of a block of this chain. Height zero is the genesis block.
#[derive(Clone, Copy, Debug, PartialEq, Eq, Structural, Hash, Default, PartialOrd, Ord)]
pub struct BlockHeight(pub u32);

/// Height of a block of the data-availability chain.
#[derive(Clone, Copy, Debug, PartialEq, Eq, Structural, Hash, Default, PartialOrd, Ord)]
pub struct DaBlockHeight(pub u64);

/// A timestamp in seconds on the TAI64 scale.
#[derive(Clone, Copy, Debug, PartialEq, Eq, Structural, Hash, Default, PartialOrd, Ord)]
pub struct Tai64(pub u64);

/// Marks the place of header fields that only execution can fill.
#[derive(Clone, Copy, Debug, PartialEq, Eq, Structural, Default)]
pub struct Empty;

impl BlockHeight {
    /// The height that follows this one, where there is one.
    pub fn succ(&self) -> (next: Option<BlockHeight>)
        ensures
            self.0 < u32::MAX ==> next == Some(BlockHeight((self.0 + 1) as u32)),
            self.0 == u32::MAX ==> next.is_none(),
    {
        if self.0 < u32::MAX {
            Some(BlockHeight(self.0 + 1))
        } else {
            None
        }
    }

    /// The height before this one, where there is one.
    pub fn pred(&self) -> (prev: Option<BlockHeight>)
        ensures
            self.0 > 0 ==> prev == Some(BlockHeight((self.0 - 1) as u32)),
            self.0 == 0 ==> prev.is_none(),
    {
        if self.0 > 0 {
            Some(BlockHeight(self.0 - 1))
        } else {
            None
        }
    }
}

} // verus!
