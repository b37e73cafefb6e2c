//! Blocks as the query interface gives them.

use vstd::prelude::*;
use vstd::std_specs::convert::FromSpecImpl;
use crate::client::schema::primitives::{
    BlockId, Bytes32, PublicKey, Signature, Tai64Timestamp, U32, U64,
};
use crate::client::schema::tx::TransactionIdFragment;
use crate::client::schema::{PageInfo, PaginatedResult};
use crate::outside::{recover, recovered_public_key};

verus! {

/// Asks for a block by its identifier.
#[derive(Debug)]
pub struct BlockByIdArgs {
    pub id: Option<BlockId>,
}

/// The block with the identifier asked for, if there is one.
#[derive(Debug)]
pub struct BlockByIdQuery {
    pub block: Option<Block>,
}

/// Asks for a block by its height.
#[derive(Debug)]
pub struct BlockByHeightArgs {
    pub height: Option<U64>,
}

/// The block at the height asked for, if there is one.
#[derive(Debug)]
pub struct BlockByHeightQuery {
    pub block: Option<Block>,
}

/// One page of blocks.
#[derive(Debug)]
pub struct BlocksQuery {
    pub blocks: BlockConnection,
}

/// A page of blocks with its place in the whole.
#[derive(Debug)]
pub struct BlockConnection {
    pub edges: Vec<BlockEdge>,
    pub page_info: PageInfo,
}

/// A block with the cursor that leads to it.
#[derive(Debug)]
pub struct BlockEdge {
    pub cursor: String,
    pub node: Block,
}

/// A block.
#[derive(Debug)]
pub struct Block {
    pub id: BlockId,
    pub header: Header,
    pub consensus: Consensus,
    pub transactions: Vec<TransactionIdFragment>,
}

/// A block, reduced to its identifier.
#[derive(Debug)]
pub struct BlockIdFragment {
    pub id: BlockId,
}

/// Asks the node to produce blocks.
#[derive(Debug)]
pub struct ProduceBlockArgs {
    pub start_timestamp: Option<Tai64Timestamp>,
    pub blocks_to_produce: U64,
}

/// The height the chain has after the blocks asked for were produced.
#[derive(Debug)]
pub struct BlockMutation {
    pub produce_blocks: U32,
}

/// The header of a block.
#[derive(Debug)]
pub struct Header {
    pub id: BlockId,
    pub da_height: U64,
    pub transactions_count: U64,
    pub message_receipt_count: U64,
    pub transactions_root: Bytes32,
    pub message_receipt_root: Bytes32,
    pub height: U32,
    pub prev_root: Bytes32,
    pub time: Tai64Timestamp,
    pub application_hash: Bytes32,
}

/// The consensus a block is under.
#[derive(Debug)]
pub enum Consensus {
    Genesis(Genesis),
    PoAConsensus(PoAConsensus),
    Unknown,
}

/// The roots that the genesis block commits to.
#[derive(Debug)]
pub struct Genesis {
    pub chain_config_hash: Bytes32,
    pub coins_root: Bytes32,
    pub contracts_root: Bytes32,
    pub messages_root: Bytes32,
}

/// The seal of a block under proof of authority.
#[derive(Debug)]
pub struct PoAConsensus {
    pub signature: Signature,
}

/// The blocks of a list of edges, in order.
pub open spec fn edge_nodes(edges: Seq<BlockEdge>) -> Seq<Block> {
    edges.map_values(|e: BlockEdge| e.node)
}

impl From<BlockConnection> for PaginatedResult<Block, String> {
    /// The page holds the blocks of the edges in their order; its cursor is
    /// the end cursor.
    fn from(conn: BlockConnection) -> (page: Self)
        ensures
            page.cursor == conn.page_info.end_cursor,
            page.has_next_page == conn.page_info.has_next_page,
            page.has_previous_page == conn.page_info.has_previous_page,
            page.results@ == edge_nodes(conn.edges@),
    {
        let BlockConnection { edges, page_info } = conn;
        let ghost all = edges@;
        let mut edges = edges;
        let mut reversed: Vec<Block> = Vec::new();
        while edges.len() > 0
            invariant
                edges@.len() + reversed@.len() == all.len(),
                edges@ == all.subrange(0, edges@.len() as int),
                forall|j: int|
                    0 <= j < reversed@.len() ==> reversed@[j] == all[all.len() - 1 - j].node,
            decreases edges@.len(),
        {
            let edge = edges.pop().unwrap();
            reversed.push(edge.node);
        }
        let mut results: Vec<Block> = Vec::new();
        while reversed.len() > 0
            invariant
                results@.len() + reversed@.len() == all.len(),
                forall|j: int|
                    0 <= j < reversed@.len() ==> reversed@[j] == all[all.len() - 1 - j].node,
                forall|j: int| 0 <= j < results@.len() ==> results@[j] == all[j].node,
            decreases reversed@.len(),
        {
            let node = reversed.pop().unwrap();
            results.push(node);
        }
        assert(results@ =~= edge_nodes(all));
        PaginatedResult {
            cursor: page_info.end_cursor,
            has_next_page: page_info.has_next_page,
            has_previous_page: page_info.has_previous_page,
            results,
        }
    }
}

impl FromSpecImpl<BlockConnection> for PaginatedResult<Block, String> {
    /// The page is stated by the clauses of `from`, over the view of its
    /// results; no value of the type is singled out here.
    open spec fn obeys_from_spec() -> bool {
        false
    }

    open spec fn from_spec(conn: BlockConnection) -> Self {
        arbitrary()
    }
}

impl Block {
    /// The key that produced the block as far as its consensus tells: the
    /// zero key for the genesis block, the key that the seal's signature
    /// over the block's identifier recovers to under proof of authority, if
    /// it recovers to one, and none where the consensus is unknown.
    pub open spec fn spec_block_producer(self) -> Option<Seq<u8>> {
        match self.consensus {
            Consensus::Genesis(_) => Some(PublicKey::zero_bytes()),
            Consensus::PoAConsensus(poa) => recovered_public_key(
                poa.signature.0@,
                self.header.id.0@,
            ),
            Consensus::Unknown => None,
        }
    }

    /// The public key of the block's producer, if any.
    pub fn block_producer(&self) -> (key: Option<PublicKey>)
        ensures
            key.is_some() == self.spec_block_producer().is_some(),
            key matches Some(k) ==> Some(k.0@) == self.spec_block_producer(),
    {
        match &self.consensus {
            Consensus::Genesis(_) => Some(PublicKey::zeroed()),
            Consensus::PoAConsensus(poa) => match recover(&poa.signature.0, &self.header.id.0.bytes) {
                Some(bytes) => Some(PublicKey(bytes)),
                None => None,
            },
            Consensus::Unknown => None,
        }
    }
}

} // verus!
