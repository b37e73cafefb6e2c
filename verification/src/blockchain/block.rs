//! Blocks: a header with its transactions, in full or compressed to their
//! identifiers.

use vstd::prelude::*;
use vstd::std_specs::convert::FromSpecImpl;
use crate::blockchain::consensus::ConsensusType;
use crate::blockchain::header::{
    ApplicationHeader, BlockHeader, ConsensusHeader, PartialBlockHeader,
};
use crate::blockchain::primitives::{BlockId, Empty, MessageId, TxId};
use crate::blockchain::transaction::{
    bytes32_views, transaction_ids, transaction_views, ConsensusParameters, Transaction,
};
use crate::outside::MERKLE_LEAF_LIMIT;

verus! {

/// A block: a complete header and the executed transactions, each held as
/// a `TransactionRepresentation`.
#[derive(Clone, Debug, PartialEq, Eq)]
pub struct Block<TransactionRepresentation = Transaction> {
    header: BlockHeader,
    transactions: Vec<TransactionRepresentation>,
}

/// A block whose transactions are held by their identifiers.
pub type CompressedBlock = Block<TxId>;

/// A block before execution: the partial header and the transactions that
/// are to be executed, or were.
#[derive(Clone, Debug)]
pub struct PartialFuelBlock {
    /// The partial header.
    pub header: PartialBlockHeader,
    /// The transactions, in execution order.
    pub transactions: Vec<Transaction>,
}

/// What a block is, as mathematics.
pub struct BlockView<TransactionRepresentation> {
    pub header: BlockHeader,
    pub transactions: Seq<TransactionRepresentation>,
}

impl BlockView<TxId> {
    /// This is `block` with each transaction replaced by its identifier on
    /// the chain `chain_id`.
    pub open spec fn is_compression_of(self, block: BlockView<Transaction>, chain_id: u64) -> bool {
        &&& self.header == block.header
        &&& bytes32_views(self.transactions) == transaction_ids(
            transaction_views(block.transactions),
            chain_id,
        )
    }
}

impl BlockView<Transaction> {
    /// This is `compressed` with the given transactions in the place of
    /// its identifiers.
    pub open spec fn is_uncompression_of(
        self,
        compressed: BlockView<TxId>,
        transactions: Seq<Transaction>,
    ) -> bool {
        &&& self.header == compressed.header
        &&& self.transactions == transactions
    }
}

/// Compressing a block and uncompressing the result with the block's own
/// transactions gives the block back: the same header, the same
/// transactions, and so the same list of transaction identifiers.
pub proof fn lemma_compress_uncompress_round_trip(
    block: BlockView<Transaction>,
    compressed: BlockView<TxId>,
    restored: BlockView<Transaction>,
    chain_id: u64,
)
    requires
        compressed.is_compression_of(block, chain_id),
        restored.is_uncompression_of(compressed, block.transactions),
    ensures
        restored == block,
        restored.header == block.header,
        transaction_ids(transaction_views(restored.transactions), chain_id) == bytes32_views(
            compressed.transactions,
        ),
        compressed.is_compression_of(restored, chain_id),
{
}

impl<TransactionRepresentation> View for Block<TransactionRepresentation> {
    type V = BlockView<TransactionRepresentation>;

    closed spec fn view(&self) -> BlockView<TransactionRepresentation> {
        BlockView { header: self.header, transactions: self.transactions@ }
    }
}

impl Block<Transaction> {
    /// Makes the full block of a partial header, the executed transactions
    /// and the identifiers of the messages they produced. Transactions and
    /// messages stand in execution order.
    pub fn new(header: PartialBlockHeader, transactions: Vec<Transaction>, message_ids: &[MessageId]) -> (block: Self)
        requires
            transactions@.len() <= MERKLE_LEAF_LIMIT,
            message_ids@.len() <= MERKLE_LEAF_LIMIT,
        ensures
            block@.header.is_generated_from(
                header,
                transaction_views(transactions@),
                bytes32_views(message_ids@),
            ),
            block@.transactions == transactions@,
    {
        let header = header.generate(transactions.as_slice(), message_ids);
        Block { header, transactions }
    }

    /// Makes the block of a complete header and transactions that were
    /// executed before, if the header commits to exactly these transactions.
    pub fn try_from_executed(header: BlockHeader, transactions: Vec<Transaction>) -> (block: Option<Self>)
        requires
            transactions@.len() <= MERKLE_LEAF_LIMIT,
        ensures
            block.is_some() <==> header.commits_to(transaction_views(transactions@)),
            block matches Some(b) ==> b@.header == header && b@.transactions == transactions@,
    {
        if header.validate_transactions(transactions.as_slice()) {
            Some(Block { header, transactions })
        } else {
            None
        }
    }

    /// The block with each transaction replaced by its identifier under the
    /// given parameters.
    pub fn compress(&self, params: &ConsensusParameters) -> (compressed: CompressedBlock)
        ensures
            compressed@.is_compression_of(self@, params.chain_id),
    {
        let mut ids: Vec<TxId> = Vec::new();
        let mut i: usize = 0;
        while i < self.transactions.len()
            invariant
                i <= self.transactions.len(),
                ids@.len() == i,
                forall|j: int| 0 <= j < i ==> ids@[j]@ == self.transactions@[j]@.id(params.chain_id),
            decreases self.transactions.len() - i,
        {
            ids.push(self.transactions[i].id(params));
            i += 1;
        }
        assert(bytes32_views(ids@) =~= transaction_ids(
            transaction_views(self.transactions@),
            params.chain_id,
        ));
        Block { header: self.header, transactions: ids }
    }
}

impl<T> Block<T> {
    /// The transactions of the block, as the vector that holds them.
    pub closed spec fn spec_transactions(self) -> Vec<T> {
        self.transactions
    }

    /// Takes the block apart.
    pub fn into_inner(self) -> (parts: (BlockHeader, Vec<T>))
        ensures
            parts.0 == self@.header,
            parts.1@ == self@.transactions,
    {
        (self.header, self.transactions)
    }
}

impl Block<TxId> {
    /// The full block of a compressed one and its transactions. The
    /// transactions are taken as given: they are not held against the
    /// identifiers.
    pub fn uncompress(self, transactions: Vec<Transaction>) -> (block: Block<Transaction>)
        ensures
            block@.is_uncompression_of(self@, transactions@),
    {
        Block { header: self.header, transactions }
    }

    /// A copy of the block.
    pub fn duplicate(&self) -> (copy: Self)
        ensures
            copy@ == self@,
    {
        let mut ids: Vec<TxId> = Vec::new();
        let mut i: usize = 0;
        while i < self.transactions.len()
            invariant
                i <= self.transactions.len(),
                ids@ == self.transactions@.subrange(0, i as int),
            decreases self.transactions.len() - i,
        {
            ids.push(self.transactions[i]);
            assert(ids@ =~= self.transactions@.subrange(0, i + 1));
            i += 1;
        }
        assert(ids@ =~= self.transactions@);
        Block { header: self.header, transactions: ids }
    }

    /// A compressed block of the given parts. Nothing is generated or
    /// checked.
    pub fn test(header: BlockHeader, transactions: Vec<TxId>) -> (block: Self)
        ensures
            block@.header == header,
            block@.transactions == transactions@,
    {
        Block { header, transactions }
    }
}

impl<TransactionRepresentation> Block<TransactionRepresentation> {
    /// The digest of the block's header is kept beside the header.
    pub open spec fn has_valid_id(self) -> bool {
        self@.header.has_valid_id()
    }

    /// The identifier of the block: the digest of its header, whatever the
    /// transactions are held as.
    pub fn id(&self) -> (id: BlockId)
        ensures
            id.0@ == self@.header.spec_hash(),
    {
        self.header.id()
    }

    /// The executed transactions.
    pub fn transactions(&self) -> (txs: &[TransactionRepresentation])
        ensures
            txs@ == self@.transactions,
    {
        self.transactions.as_slice()
    }

    /// The complete header.
    pub fn header(&self) -> (header: &BlockHeader)
        ensures
            *header == self@.header,
    {
        &self.header
    }

    /// The kind of consensus the block's header is under.
    pub fn consensus_type(&self) -> (kind: ConsensusType)
        ensures
            kind == ConsensusType::PoA,
    {
        self.header.consensus_type()
    }

    /// The transactions, to be changed in place. Meant for tooling that
    /// prepares a block before it is treated as final.
    pub fn transactions_mut(&mut self) -> (txs: &mut Vec<TransactionRepresentation>)
        ensures
            txs@ == old(self)@.transactions,
            final(self)@.header == old(self)@.header,
            final(self)@.transactions == final(txs)@,
    {
        &mut self.transactions
    }

    /// The header, to be changed in place. Meant for tooling that prepares
    /// a block before it is treated as final.
    pub fn header_mut(&mut self) -> (header: &mut BlockHeader)
        ensures
            *header == old(self)@.header,
            final(self)@.header == *final(header),
            final(self)@.transactions == old(self)@.transactions,
    {
        &mut self.header
    }
}

impl<TransactionRepresentation> Default for Block<TransactionRepresentation> {
    /// The block of the default header, without transactions.
    fn default() -> (block: Self)
        ensures
            block@.transactions == Seq::<TransactionRepresentation>::empty(),
            block@.header.consensus.height.0 == 0,
            block@.header.consensus.time.0 == 0,
            block@.header.application.da_height.0 == 0,
            block.has_valid_id(),
    {
        Block { header: BlockHeader::default(), transactions: Vec::new() }
    }
}

impl PartialFuelBlock {
    /// A partial block of the given header and transactions.
    pub fn new(header: PartialBlockHeader, transactions: Vec<Transaction>) -> (block: Self)
        ensures
            block.header == header,
            block.transactions == transactions,
    {
        PartialFuelBlock { header, transactions }
    }

    /// The full block that this partial block becomes once it has run and
    /// produced the given messages, in the order they were produced.
    pub fn generate(self, message_ids: &[MessageId]) -> (block: Block)
        requires
            self.transactions@.len() <= MERKLE_LEAF_LIMIT,
            message_ids@.len() <= MERKLE_LEAF_LIMIT,
        ensures
            block@.header.is_generated_from(
                self.header,
                transaction_views(self.transactions@),
                bytes32_views(message_ids@),
            ),
            block@.transactions == self.transactions@,
    {
        Block::new(self.header, self.transactions, message_ids)
    }
}

/// The partial header that a complete header was generated from.
pub open spec fn partial_header_of(header: BlockHeader) -> PartialBlockHeader {
    PartialBlockHeader {
        application: ApplicationHeader { da_height: header.application.da_height, generated: Empty },
        consensus: ConsensusHeader {
            prev_root: header.consensus.prev_root,
            height: header.consensus.height,
            time: header.consensus.time,
            generated: Empty,
        },
    }
}

impl From<Block> for PartialFuelBlock {
    /// The partial block that a full block was generated from: the fields
    /// that execution generated are dropped.
    fn from(block: Block) -> (partial: Self)
        ensures
            partial.header == partial_header_of(block@.header),
            partial.transactions@ == block@.transactions,
    {
        let Block { header, transactions } = block;
        PartialFuelBlock {
            header: PartialBlockHeader {
                application: ApplicationHeader {
                    da_height: header.application.da_height,
                    generated: Empty,
                },
                consensus: ConsensusHeader {
                    prev_root: header.consensus.prev_root,
                    height: header.consensus.height,
                    time: header.consensus.time,
                    generated: Empty,
                },
            },
            transactions,
        }
    }
}

impl FromSpecImpl<Block> for PartialFuelBlock {
    open spec fn obeys_from_spec() -> bool {
        true
    }

    open spec fn from_spec(block: Block) -> Self {
        PartialFuelBlock {
            header: partial_header_of(block@.header),
            transactions: block.spec_transactions(),
        }
    }
}

} // verus!
