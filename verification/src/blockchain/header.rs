//! Block headers: the partial header known before execution, and the full
//! header that execution completes and whose digest names the block.

use vstd::prelude::*;
use vstd::bytes::{
    lemma_auto_spec_u32_to_from_le_bytes, lemma_auto_spec_u64_to_from_le_bytes,
    spec_u32_to_le_bytes, spec_u64_to_le_bytes, u32_to_le_bytes, u64_to_le_bytes,
};
use crate::blockchain::consensus::ConsensusType;
use crate::blockchain::primitives::{
    BlockHeight, BlockId, Bytes32, DaBlockHeight, Empty, MessageId, Tai64,
};
use crate::blockchain::transaction::{
    bytes32_views, transaction_bytes, transaction_views, Transaction, TransactionView,
};
use crate::outside::{
    hash, merkle_leaves, merkle_root, merkle_tree_new, merkle_tree_push, merkle_tree_root, sha256,
    MERKLE_LEAF_LIMIT,
};

verus! {

/// The big-endian bytes of a 32-bit number.
pub open spec fn be_u32(x: u32) -> Seq<u8> {
    spec_u32_to_le_bytes(x).reverse()
}

/// The big-endian bytes of a 64-bit number.
pub open spec fn be_u64(x: u64) -> Seq<u8> {
    spec_u64_to_le_bytes(x).reverse()
}

/// Appends the big-endian bytes of `x` to `buf`.
fn push_be_u32(buf: &mut Vec<u8>, x: u32)
    ensures
        final(buf)@ == old(buf)@ + be_u32(x),
{
    proof {
        lemma_auto_spec_u32_to_from_le_bytes();
    }
    let le = u32_to_le_bytes(x);
    let mut i: usize = 4;
    while i > 0
        invariant
            i <= 4,
            le@ == spec_u32_to_le_bytes(x),
            le@.len() == 4,
            buf@ == old(buf)@ + be_u32(x).subrange(0, 4 - i),
        decreases i,
    {
        i -= 1;
        buf.push(le[i]);
        assert(buf@ =~= old(buf)@ + be_u32(x).subrange(0, 4 - i));
    }
    assert(buf@ =~= old(buf)@ + be_u32(x));
}

/// Appends the big-endian bytes of `x` to `buf`.
fn push_be_u64(buf: &mut Vec<u8>, x: u64)
    ensures
        final(buf)@ == old(buf)@ + be_u64(x),
{
    proof {
        lemma_auto_spec_u64_to_from_le_bytes();
    }
    let le = u64_to_le_bytes(x);
    let mut i: usize = 8;
    while i > 0
        invariant
            i <= 8,
            le@ == spec_u64_to_le_bytes(x),
            le@.len() == 8,
            buf@ == old(buf)@ + be_u64(x).subrange(0, 8 - i),
        decreases i,
    {
        i -= 1;
        buf.push(le[i]);
        assert(buf@ =~= old(buf)@ + be_u64(x).subrange(0, 8 - i));
    }
    assert(buf@ =~= old(buf)@ + be_u64(x));
}

/// Appends the bytes of `value` to `buf`.
fn push_bytes32(buf: &mut Vec<u8>, value: &Bytes32)
    ensures
        final(buf)@ == old(buf)@ + value@,
{
    let mut i: usize = 0;
    while i < 32
        invariant
            i <= 32,
            buf@ == old(buf)@ + value@.subrange(0, i as int),
        decreases 32 - i,
    {
        buf.push(value.bytes[i]);
        assert(buf@ =~= old(buf)@ + value@.subrange(0, i + 1));
        i += 1;
    }
    assert(buf@ =~= old(buf)@ + value@);
}

/// The header fields that execution fills in on the application side.
#[derive(Clone, Copy, Debug, PartialEq, Eq, Default)]
pub struct GeneratedApplicationFields {
    /// Number of transactions in the block.
    pub transactions_count: u64,
    /// Number of messages that the block's transactions produced.
    pub message_receipt_count: u64,
    /// Merkle root of the block's transactions.
    pub transactions_root: Bytes32,
    /// Merkle root of the identifiers of the produced messages.
    pub message_receipt_root: Bytes32,
}

/// The header field that execution fills in on the consensus side.
#[derive(Clone, Copy, Debug, PartialEq, Eq, Default)]
pub struct GeneratedConsensusFields {
    /// Digest of the application header.
    pub application_hash: Bytes32,
}

/// The application header: what the block commits to having executed.
#[derive(Clone, Copy, Debug, PartialEq, Eq, Default)]
pub struct ApplicationHeader<Generated> {
    /// Height of the data-availability chain that the block has observed.
    pub da_height: DaBlockHeight,
    /// The fields that execution generates.
    pub generated: Generated,
}

/// The consensus header: where the block stands in the chain.
#[derive(Clone, Copy, Debug, PartialEq, Eq, Default)]
pub struct ConsensusHeader<Generated> {
    /// Merkle root of all previous block headers.
    pub prev_root: Bytes32,
    /// Height of this block.
    pub height: BlockHeight,
    /// Time at which this block was made.
    pub time: Tai64,
    /// The fields that execution generates.
    pub generated: Generated,
}

/// What is cached beside a full header.
#[derive(Clone, Copy, Debug, PartialEq, Eq)]
pub struct BlockHeaderMetadata {
    /// The identifier that was computed last.
    pub id: BlockId,
}

/// A header with every field, as execution leaves it.
#[derive(Clone, Copy, Debug, PartialEq, Eq)]
pub struct BlockHeader {
    /// The application header.
    pub application: ApplicationHeader<GeneratedApplicationFields>,
    /// The consensus header.
    pub consensus: ConsensusHeader<GeneratedConsensusFields>,
    /// The cached identifier, where one was computed.
    pub metadata: Option<BlockHeaderMetadata>,
}

/// A header with the fields that are known before execution.
#[derive(Clone, Copy, Debug, PartialEq, Eq, Default)]
pub struct PartialBlockHeader {
    /// The application header.
    pub application: ApplicationHeader<Empty>,
    /// The consensus header.
    pub consensus: ConsensusHeader<Empty>,
}

impl ApplicationHeader<GeneratedApplicationFields> {
    /// The bytes that the application digest is taken of.
    pub open spec fn hash_input(self) -> Seq<u8> {
        be_u64(self.da_height.0) + be_u64(self.generated.transactions_count) + be_u64(
            self.generated.message_receipt_count,
        ) + self.generated.transactions_root@ + self.generated.message_receipt_root@
    }

    /// The digest of the application header.
    pub open spec fn spec_hash(self) -> Seq<u8> {
        sha256(self.hash_input())
    }

    /// Computes the digest of the application header.
    pub fn hash(&self) -> (digest: Bytes32)
        ensures
            digest@ == self.spec_hash(),
    {
        let mut buf: Vec<u8> = Vec::new();
        push_be_u64(&mut buf, self.da_height.0);
        push_be_u64(&mut buf, self.generated.transactions_count);
        push_be_u64(&mut buf, self.generated.message_receipt_count);
        push_bytes32(&mut buf, &self.generated.transactions_root);
        push_bytes32(&mut buf, &self.generated.message_receipt_root);
        assert(buf@ =~= self.hash_input());
        hash(buf.as_slice())
    }
}

impl ConsensusHeader<GeneratedConsensusFields> {
    /// The bytes that the block identifier is taken of.
    pub open spec fn hash_input(self) -> Seq<u8> {
        self.prev_root@ + be_u32(self.height.0) + be_u64(self.time.0)
            + self.generated.application_hash@
    }

    /// The digest of the consensus header.
    pub open spec fn spec_hash(self) -> Seq<u8> {
        sha256(self.hash_input())
    }

    /// Computes the digest of the consensus header.
    pub fn hash(&self) -> (id: BlockId)
        ensures
            id.0@ == self.spec_hash(),
    {
        let mut buf: Vec<u8> = Vec::new();
        push_bytes32(&mut buf, &self.prev_root);
        push_be_u32(&mut buf, self.height.0);
        push_be_u64(&mut buf, self.time.0);
        push_bytes32(&mut buf, &self.generated.application_hash);
        assert(buf@ =~= self.hash_input());
        BlockId(hash(buf.as_slice()))
    }
}

/// The Merkle root over the canonical bytes of the given transactions.
pub open spec fn transactions_root(txs: Seq<TransactionView>) -> Seq<u8> {
    merkle_root(transaction_bytes(txs))
}

/// The Merkle root over the given message identifiers.
pub open spec fn message_receipt_root(message_ids: Seq<Seq<u8>>) -> Seq<u8> {
    merkle_root(message_ids)
}

/// Computes the Merkle root over the canonical bytes of the transactions.
pub fn generate_txns_root(transactions: &[Transaction]) -> (root: Bytes32)
    requires
        transactions@.len() <= MERKLE_LEAF_LIMIT,
    ensures
        root@ == transactions_root(transaction_views(transactions@)),
{
    let mut tree = merkle_tree_new();
    let mut i: usize = 0;
    while i < transactions.len()
        invariant
            i <= transactions.len(),
            transactions@.len() <= MERKLE_LEAF_LIMIT,
            merkle_leaves(tree) == transaction_bytes(transaction_views(transactions@)).subrange(
                0,
                i as int,
            ),
        decreases transactions.len() - i,
    {
        let bytes = transactions[i].to_bytes();
        merkle_tree_push(&mut tree, bytes.as_slice());
        assert(merkle_leaves(tree) =~= transaction_bytes(
            transaction_views(transactions@),
        ).subrange(0, i + 1));
        i += 1;
    }
    assert(merkle_leaves(tree) =~= transaction_bytes(transaction_views(transactions@)));
    merkle_tree_root(&tree)
}

/// Computes the Merkle root over the message identifiers.
pub fn generate_message_root(message_ids: &[MessageId]) -> (root: Bytes32)
    requires
        message_ids@.len() <= MERKLE_LEAF_LIMIT,
    ensures
        root@ == message_receipt_root(bytes32_views(message_ids@)),
{
    let mut tree = merkle_tree_new();
    let mut i: usize = 0;
    while i < message_ids.len()
        invariant
            i <= message_ids.len(),
            message_ids@.len() <= MERKLE_LEAF_LIMIT,
            merkle_leaves(tree) == bytes32_views(message_ids@).subrange(0, i as int),
        decreases message_ids.len() - i,
    {
        let bytes = message_ids[i].to_vec();
        merkle_tree_push(&mut tree, bytes.as_slice());
        assert(merkle_leaves(tree) =~= bytes32_views(message_ids@).subrange(0, i + 1));
        i += 1;
    }
    assert(merkle_leaves(tree) =~= bytes32_views(message_ids@));
    merkle_tree_root(&tree)
}

impl BlockHeader {
    /// The digest of the header: that of its consensus part, which takes in
    /// the application digest.
    pub open spec fn spec_hash(self) -> Seq<u8> {
        self.consensus.spec_hash()
    }

    /// The digest of the header is kept beside it, so that it need not be
    /// computed again.
    pub open spec fn has_valid_id(self) -> bool {
        match self.metadata {
            Some(metadata) => metadata.id.0@ == self.spec_hash(),
            None => false,
        }
    }

    /// The digest of the header is kept beside it, and its application
    /// digest is that of its application part.
    pub open spec fn is_consistent(self) -> bool {
        &&& self.has_valid_id()
        &&& self.consensus.generated.application_hash@ == self.application.spec_hash()
    }

    /// The header commits to the given transactions: their Merkle root and
    /// their number are the header's.
    pub open spec fn commits_to(self, txs: Seq<TransactionView>) -> bool {
        &&& self.application.generated.transactions_root@ == transactions_root(txs)
        &&& self.application.generated.transactions_count == txs.len()
    }

    /// The header is the one that `partial` generates over the given
    /// transactions and message identifiers.
    pub open spec fn is_generated_from(
        self,
        partial: PartialBlockHeader,
        txs: Seq<TransactionView>,
        message_ids: Seq<Seq<u8>>,
    ) -> bool {
        &&& self.application.da_height == partial.application.da_height
        &&& self.application.generated.transactions_count == txs.len()
        &&& self.application.generated.message_receipt_count == message_ids.len()
        &&& self.application.generated.transactions_root@ == transactions_root(txs)
        &&& self.application.generated.message_receipt_root@ == message_receipt_root(message_ids)
        &&& self.consensus.prev_root == partial.consensus.prev_root
        &&& self.consensus.height == partial.consensus.height
        &&& self.consensus.time == partial.consensus.time
        &&& self.is_consistent()
    }

    /// Computes the digest of the header.
    pub fn hash(&self) -> (id: BlockId)
        ensures
            id.0@ == self.spec_hash(),
    {
        self.consensus.hash()
    }

    /// The identifier of the header: the digest of its contents, whatever
    /// is kept beside it.
    pub fn id(&self) -> (id: BlockId)
        ensures
            id.0@ == self.spec_hash(),
    {
        self.hash()
    }

    /// Caches the digest of the header as its identifier.
    pub fn recalculate_metadata(&mut self)
        ensures
            final(self).application == old(self).application,
            final(self).consensus == old(self).consensus,
            final(self).has_valid_id(),
    {
        let id = self.hash();
        self.metadata = Some(BlockHeaderMetadata { id });
    }

    /// A header at the given height and time, with every other field at its
    /// default and the identifier cached.
    pub fn new_block(height: BlockHeight, time: Tai64) -> (header: Self)
        ensures
            header.consensus.height == height,
            header.consensus.time == time,
            header.consensus.prev_root@ == Bytes32::zero_bytes(),
            header.consensus.generated.application_hash@ == Bytes32::zero_bytes(),
            header.application.da_height == DaBlockHeight(0),
            header.application.generated.transactions_count == 0,
            header.application.generated.message_receipt_count == 0,
            header.application.generated.transactions_root@ == Bytes32::zero_bytes(),
            header.application.generated.message_receipt_root@ == Bytes32::zero_bytes(),
            header.has_valid_id(),
    {
        let mut header = BlockHeader {
            application: ApplicationHeader {
                da_height: DaBlockHeight(0),
                generated: GeneratedApplicationFields {
                    transactions_count: 0,
                    message_receipt_count: 0,
                    transactions_root: Bytes32::zeroed(),
                    message_receipt_root: Bytes32::zeroed(),
                },
            },
            consensus: ConsensusHeader {
                prev_root: Bytes32::zeroed(),
                height,
                time,
                generated: GeneratedConsensusFields { application_hash: Bytes32::zeroed() },
            },
            metadata: None,
        };
        header.recalculate_metadata();
        header
    }

    /// Whether the given transactions are the ones the header commits to:
    /// their Merkle root and their number are the header's.
    pub fn validate_transactions(&self, transactions: &[Transaction]) -> (valid: bool)
        requires
            transactions@.len() <= MERKLE_LEAF_LIMIT,
        ensures
            valid == self.commits_to(transaction_views(transactions@)),
    {
        let root = generate_txns_root(transactions);
        proof {
            Bytes32::lemma_view_injective(root, self.application.generated.transactions_root);
        }
        root == self.application.generated.transactions_root && transactions.len() as u64
            == self.application.generated.transactions_count
    }

    /// The kind of consensus the header is under.
    pub fn consensus_type(&self) -> (kind: ConsensusType)
        ensures
            kind == ConsensusType::PoA,
    {
        ConsensusType::PoA
    }

    /// Height of the data-availability chain that the block has observed.
    pub fn da_height(&self) -> (h: DaBlockHeight)
        ensures
            h == self.application.da_height,
    {
        self.application.da_height
    }

    /// Height of the block.
    pub fn height(&self) -> (h: BlockHeight)
        ensures
            h == self.consensus.height,
    {
        self.consensus.height
    }

    /// Time at which the block was made.
    pub fn time(&self) -> (t: Tai64)
        ensures
            t == self.consensus.time,
    {
        self.consensus.time
    }
}

impl Default for BlockHeader {
    /// The header of height zero and time zero, with its identifier cached.
    fn default() -> (header: Self)
        ensures
            header.consensus.height == BlockHeight(0),
            header.consensus.time == Tai64(0),
            header.application.da_height == DaBlockHeight(0),
            header.application.generated.transactions_count == 0,
            header.has_valid_id(),
    {
        BlockHeader::new_block(BlockHeight(0), Tai64(0))
    }
}

impl PartialBlockHeader {
    /// Completes the header over the executed transactions and the
    /// identifiers of the messages they produced, both in execution order.
    pub fn generate(self, transactions: &[Transaction], message_ids: &[MessageId]) -> (header:
        BlockHeader)
        requires
            transactions@.len() <= MERKLE_LEAF_LIMIT,
            message_ids@.len() <= MERKLE_LEAF_LIMIT,
        ensures
            header.is_generated_from(
                self,
                transaction_views(transactions@),
                bytes32_views(message_ids@),
            ),
    {
        let transactions_root = generate_txns_root(transactions);
        let message_receipt_root = generate_message_root(message_ids);
        let application = ApplicationHeader {
            da_height: self.application.da_height,
            generated: GeneratedApplicationFields {
                transactions_count: transactions.len() as u64,
                message_receipt_count: message_ids.len() as u64,
                transactions_root,
                message_receipt_root,
            },
        };
        let application_hash = application.hash();
        let mut header = BlockHeader {
            application,
            consensus: ConsensusHeader {
                prev_root: self.consensus.prev_root,
                height: self.consensus.height,
                time: self.consensus.time,
                generated: GeneratedConsensusFields { application_hash },
            },
            metadata: None,
        };
        header.recalculate_metadata();
        header
    }

    /// Height of the block.
    pub fn height(&self) -> (h: BlockHeight)
        ensures
            h == self.consensus.height,
    {
        self.consensus.height
    }

    /// Time at which the block is made.
    pub fn time(&self) -> (t: Tai64)
        ensures
            t == self.consensus.time,
    {
        self.consensus.time
    }

    /// Height of the data-availability chain that the block will observe.
    pub fn da_height(&self) -> (h: DaBlockHeight)
        ensures
            h == self.application.da_height,
    {
        self.application.da_height
    }
}

/// A partial header and a list of transactions and message identifiers
/// generate one header only.
pub proof fn lemma_generated_header_unique(
    a: BlockHeader,
    b: BlockHeader,
    partial: PartialBlockHeader,
    txs: Seq<TransactionView>,
    message_ids: Seq<Seq<u8>>,
)
    requires
        a.is_generated_from(partial, txs, message_ids),
        b.is_generated_from(partial, txs, message_ids),
    ensures
        a.application == b.application,
        a.consensus == b.consensus,
        a == b,
{
    Bytes32::lemma_view_injective(a.metadata->Some_0.id.0, b.metadata->Some_0.id.0);
    Bytes32::lemma_view_injective(
        a.application.generated.transactions_root,
        b.application.generated.transactions_root,
    );
    Bytes32::lemma_view_injective(
        a.application.generated.message_receipt_root,
        b.application.generated.message_receipt_root,
    );
    Bytes32::lemma_view_injective(
        a.consensus.generated.application_hash,
        b.consensus.generated.application_hash,
    );
}

} // verus!
