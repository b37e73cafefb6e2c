//! Messages as the query interface gives them.

use vstd::prelude::*;
use vstd::std_specs::convert::FromSpecImpl;
use crate::client::schema::block::Header;
use crate::client::schema::primitives::{
    Address, BlockId, Bytes32, HexString, MessageId, Nonce, TransactionId, U32, U64,
};
use crate::client::schema::{
    page_size, PageDirection, PageInfo, PaginatedResult, PaginationRequest,
};

verus! {

/// A message.
#[derive(Debug)]
pub struct Message {
    pub amount: U64,
    pub sender: Address,
    pub recipient: Address,
    pub nonce: Nonce,
    pub data: HexString,
    pub da_height: U64,
}

/// One page of the messages of an owner.
#[derive(Debug)]
pub struct OwnedMessageQuery {
    pub messages: MessageConnection,
}

/// A page of messages with its place in the whole.
#[derive(Debug)]
pub struct MessageConnection {
    pub edges: Vec<MessageEdge>,
    pub page_info: PageInfo,
}

/// A message with the cursor that leads to it.
#[derive(Debug)]
pub struct MessageEdge {
    pub cursor: String,
    pub node: Message,
}

/// The arguments of a paginated query for the messages of an owner.
#[derive(Debug)]
pub struct OwnedMessagesConnectionArgs {
    /// Only messages of this owner.
    pub owner: Option<Address>,
    /// Skip until this cursor (forward pagination).
    pub after: Option<String>,
    /// Skip until this cursor (backward pagination).
    pub before: Option<String>,
    /// Take the first n items in order (forward pagination).
    pub first: Option<i32>,
    /// Take the last n items in order (backward pagination). Not together
    /// with `first`.
    pub last: Option<i32>,
}

/// The proof that a message was produced, if there is one.
#[derive(Debug)]
pub struct MessageProofQuery {
    pub message_proof: Option<MessageProof>,
}

/// A Merkle proof.
#[derive(Debug)]
pub struct MerkleProof {
    /// The hashes along the path.
    pub proof_set: Vec<Bytes32>,
    /// The index of the leaf that is proved.
    pub proof_index: U64,
}

/// The proof that a message was produced in a block of the chain.
#[derive(Debug)]
pub struct MessageProof {
    /// Proves that the message is in the message block.
    pub message_proof: MerkleProof,
    /// Proves that the message block is in the chain that the commit block
    /// ends.
    pub block_proof: MerkleProof,
    /// The header of the block that holds the message.
    pub message_block_header: Header,
    /// The header of the block that the block proof is rooted in.
    pub commit_block_header: Header,
    /// The sender of the message.
    pub sender: Address,
    /// The recipient of the message.
    pub recipient: Address,
    /// The nonce of the message.
    pub nonce: Nonce,
    /// The amount of the message.
    pub amount: U64,
    /// The data of the message.
    pub data: HexString,
}

/// Asks for the proof of a message. Of the two commit fields one is set.
#[derive(Debug)]
pub struct MessageProofArgs {
    /// The transaction that produced the message.
    pub transaction_id: TransactionId,
    /// The message to prove.
    pub message_id: MessageId,
    /// The identifier of the commit block.
    pub commit_block_id: Option<BlockId>,
    /// The height of the commit block.
    pub commit_block_height: Option<U32>,
}

/// The query arguments that ask for the page of an owner's messages that a
/// request describes.
pub open spec fn owned_messages_args_of(
    owner: Option<Address>,
    req: PaginationRequest<String>,
) -> OwnedMessagesConnectionArgs {
    match req.direction {
        PageDirection::Forward => OwnedMessagesConnectionArgs {
            owner,
            after: req.cursor,
            before: None,
            first: Some(page_size(req.results)),
            last: None,
        },
        PageDirection::Backward => OwnedMessagesConnectionArgs {
            owner,
            after: None,
            before: req.cursor,
            first: None,
            last: Some(page_size(req.results)),
        },
    }
}

impl From<(Option<Address>, PaginationRequest<String>)> for OwnedMessagesConnectionArgs {
    /// A forward request skips to after its cursor and takes the first
    /// results; a backward request skips to before its cursor and takes the
    /// last. The owner is carried over.
    fn from(r: (Option<Address>, PaginationRequest<String>)) -> (args: Self)
        ensures
            args == owned_messages_args_of(r.0, r.1),
    {
        let (owner, req) = r;
        let results = #[verifier::truncate] (req.results as i32);
        match req.direction {
            PageDirection::Forward => OwnedMessagesConnectionArgs {
                owner,
                after: req.cursor,
                before: None,
                first: Some(results),
                last: None,
            },
            PageDirection::Backward => OwnedMessagesConnectionArgs {
                owner,
                after: None,
                before: req.cursor,
                first: None,
                last: Some(results),
            },
        }
    }
}

impl FromSpecImpl<(Option<Address>, PaginationRequest<String>)> for OwnedMessagesConnectionArgs {
    open spec fn obeys_from_spec() -> bool {
        true
    }

    open spec fn from_spec(r: (Option<Address>, PaginationRequest<String>)) -> Self {
        owned_messages_args_of(r.0, r.1)
    }
}

/// The messages of a list of edges, in order.
pub open spec fn edge_nodes(edges: Seq<MessageEdge>) -> Seq<Message> {
    edges.map_values(|e: MessageEdge| e.node)
}

impl From<MessageConnection> for PaginatedResult<Message, String> {
    /// The page holds the messages of the edges in their order; its cursor
    /// is the end cursor.
    fn from(conn: MessageConnection) -> (page: Self)
        ensures
            page.cursor == conn.page_info.end_cursor,
            page.has_next_page == conn.page_info.has_next_page,
            page.has_previous_page == conn.page_info.has_previous_page,
            page.results@ == edge_nodes(conn.edges@),
    {
        let MessageConnection { edges, page_info } = conn;
        let ghost all = edges@;
        let mut edges = edges;
        let mut reversed: Vec<Message> = Vec::new();
        while edges.len() > 0
            invariant
                edges@.len() + reversed@.len() == all.len(),
                edges@ == all.subrange(0, edges@.len() as int),
                forall|j: int|
                    0 <= j < reversed@.len() ==> reversed@[j] == all[all.len() - 1 - j].node,
            decreases edges@.len(),
        {
            let edge = edges.pop().unwrap();
            reversed.push(edge.node);
        }
        let mut results: Vec<Message> = Vec::new();
        while reversed.len() > 0
            invariant
                results@.len() + reversed@.len() == all.len(),
                forall|j: int|
                    0 <= j < reversed@.len() ==> reversed@[j] == all[all.len() - 1 - j].node,
                forall|j: int| 0 <= j < results@.len() ==> results@[j] == all[j].node,
            decreases reversed@.len(),
        {
            let node = reversed.pop().unwrap();
            results.push(node);
        }
        assert(results@ =~= edge_nodes(all));
        PaginatedResult {
            cursor: page_info.end_cursor,
            has_next_page: page_info.has_next_page,
            has_previous_page: page_info.has_previous_page,
            results,
        }
    }
}

impl FromSpecImpl<MessageConnection> for PaginatedResult<Message, String> {
    /// The page is stated by the clauses of `from`, over the view of its
    /// results; no value of the type is singled out here.
    open spec fn obeys_from_spec() -> bool {
        false
    }

    open spec fn from_spec(conn: MessageConnection) -> Self {
        arbitrary()
    }
}

} // verus!
