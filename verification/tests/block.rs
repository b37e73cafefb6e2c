use fuel_node::blockchain::block::{Block, CompressedBlock, PartialFuelBlock};
use fuel_node::blockchain::header::{
    ApplicationHeader, BlockHeader, ConsensusHeader, PartialBlockHeader,
};
use fuel_node::blockchain::primitives::{BlockHeight, BlockId, Bytes32, DaBlockHeight, Empty, Tai64};
use fuel_node::blockchain::transaction::{ConsensusParameters, Transaction};

fn partial_header(height: u32, da_height: u64, time: u64) -> PartialBlockHeader {
    PartialBlockHeader {
        application: ApplicationHeader { da_height: DaBlockHeight(da_height), generated: Empty },
        consensus: ConsensusHeader {
            prev_root: Bytes32::new([7u8; 32]),
            height: BlockHeight(height),
            time: Tai64(time),
            generated: Empty,
        },
    }
}

fn sample_transactions() -> Vec<Transaction> {
    vec![
        Transaction::script(10, vec![], vec![]),
        Transaction::script(20, vec![1, 2, 3], vec![4]),
        Transaction::script(30, vec![], vec![9, 9]),
    ]
}

#[test]
fn new_block_has_identifier_of_its_header_digest() {
    let block = Block::new(partial_header(3, 5, 1000), sample_transactions(), &[]);
    assert_eq!(block.id(), block.header().hash());
    assert_eq!(block.header().id(), block.header().hash());
    assert_eq!(block.header().height(), BlockHeight(3));
    assert_eq!(block.header().da_height(), DaBlockHeight(5));
    assert_eq!(block.header().time(), Tai64(1000));
    assert_eq!(block.header().application.generated.transactions_count, 3);
    assert_eq!(block.header().application.generated.message_receipt_count, 0);
    assert_eq!(
        block.header().consensus.generated.application_hash,
        block.header().application.hash()
    );
}

#[test]
fn compress_then_uncompress_gives_the_block_back() {
    let params = ConsensusParameters::default();
    let block = Block::new(partial_header(1, 0, 42), sample_transactions(), &[]);
    let compressed = block.compress(&params);
    let expected_ids: Vec<Bytes32> = sample_transactions().iter().map(|tx| tx.id(&params)).collect();
    assert_eq!(compressed.transactions(), &expected_ids[..]);
    assert_eq!(compressed.header(), block.header());
    let restored = compressed.clone().uncompress(sample_transactions());
    assert_eq!(restored, block);
    assert_eq!(restored.compress(&params), compressed);
}

#[test]
fn transaction_identifier_depends_on_the_chain_and_the_content() {
    let tx = Transaction::script(10, vec![1], vec![2]);
    let a = tx.id(&ConsensusParameters { chain_id: 0, max_gas_per_tx: 1 });
    let b = tx.id(&ConsensusParameters { chain_id: 1, max_gas_per_tx: 1 });
    assert_ne!(a, b);
    let other = Transaction::script(11, vec![1], vec![2]);
    assert_ne!(a, other.id(&ConsensusParameters { chain_id: 0, max_gas_per_tx: 1 }));
    assert_ne!(a, Bytes32::new([10u8; 32]));
    assert_ne!(tx.to_bytes(), other.to_bytes());
    assert_eq!(a, tx.clone().id(&ConsensusParameters::default()));
}

#[test]
fn try_from_executed_accepts_only_the_committed_transactions() {
    let block = Block::new(partial_header(1, 0, 42), sample_transactions(), &[]);
    let (header, transactions) = block.into_inner();
    assert!(Block::try_from_executed(header, transactions).is_some());
    assert!(Block::try_from_executed(header, vec![]).is_none());
    let mut fewer = sample_transactions();
    fewer.pop();
    assert!(Block::try_from_executed(header, fewer).is_none());
    let mut reordered = sample_transactions();
    reordered.swap(0, 1);
    assert!(Block::try_from_executed(header, reordered).is_none());
}

#[test]
fn empty_roots_are_the_digest_of_nothing() {
    let block = PartialFuelBlock::new(partial_header(1, 0, 0), vec![]).generate(&[]);
    let expected: [u8; 32] = [
        0xe3, 0xb0, 0xc4, 0x42, 0x98, 0xfc, 0x1c, 0x14, 0x9a, 0xfb, 0xf4, 0xc8, 0x99, 0x6f, 0xb9,
        0x24, 0x27, 0xae, 0x41, 0xe4, 0x64, 0x9b, 0x93, 0x4c, 0xa4, 0x95, 0x99, 0x1b, 0x78, 0x52,
        0xb8, 0x55,
    ];
    assert_eq!(block.header().application.generated.transactions_root, Bytes32::new(expected));
    assert_eq!(block.header().application.generated.message_receipt_root, Bytes32::new(expected));
}

#[test]
fn message_identifiers_enter_the_header() {
    let without = Block::new(partial_header(1, 0, 0), vec![], &[]);
    let with = Block::new(partial_header(1, 0, 0), vec![], &[Bytes32::new([1u8; 32])]);
    assert_eq!(with.header().application.generated.message_receipt_count, 1);
    assert_ne!(
        with.header().application.generated.message_receipt_root,
        without.header().application.generated.message_receipt_root
    );
    assert_ne!(with.id(), without.id());
}

#[test]
fn identifier_follows_the_header_at_once() {
    let mut block: Block = Block::default();
    let before = block.id();
    assert_eq!(before, block.header().hash());
    block.header_mut().consensus.time = Tai64(77);
    // the identifier is the digest of the header as it stands
    assert_eq!(block.id(), block.header().hash());
    assert_eq!(block.header().id(), block.header().hash());
    assert_ne!(block.id(), before);
    block.header_mut().recalculate_metadata();
    assert_eq!(block.id(), block.header().hash());
    assert_eq!(block.header().time(), Tai64(77));
    block.transactions_mut().push(Transaction::script(1, vec![], vec![]));
    assert_eq!(block.transactions().len(), 1);
}

#[test]
fn scripts_beyond_the_encoding_limit_are_refused() {
    assert!(Transaction::try_script_with_inputs(1, vec![1], vec![2], vec![], vec![vec![3]]).is_some());
    let limit = 104_857_600;
    assert!(Transaction::try_script_with_inputs(1, vec![0u8; limit], vec![], vec![], vec![]).is_some());
    assert!(Transaction::try_script_with_inputs(1, vec![0u8; limit + 1], vec![], vec![], vec![]).is_none());
    assert!(Transaction::try_script_with_inputs(1, vec![], vec![0u8; limit + 1], vec![], vec![]).is_none());
    assert!(
        Transaction::try_script_with_inputs(1, vec![], vec![], vec![], vec![vec![], vec![0u8; limit + 1]])
            .is_none()
    );
}

#[test]
fn partial_block_of_a_block_drops_the_generated_fields() {
    let block = Block::new(partial_header(9, 4, 123), sample_transactions(), &[]);
    let partial = PartialFuelBlock::from(block);
    assert_eq!(partial.header, partial_header(9, 4, 123));
    assert_eq!(partial.transactions, sample_transactions());
}

#[test]
fn compressed_test_block_takes_its_parts_as_given() {
    let header = BlockHeader::new_block(BlockHeight(4), Tai64(9));
    let ids = vec![Bytes32::new([1u8; 32]), Bytes32::new([2u8; 32])];
    let block = CompressedBlock::test(header, ids.clone());
    assert_eq!(block.header(), &header);
    assert_eq!(block.transactions(), &ids[..]);
    assert_eq!(block.id(), BlockId(header.hash().0));
}

#[test]
fn header_digests_are_taken_of_the_fields_in_order() {
    let block = Block::new(partial_header(0x01020304, 0x0a0b, 0x0c0d0e0f), sample_transactions(), &[]);
    let header = block.header();

    let mut application = Vec::new();
    application.extend_from_slice(&0x0a0bu64.to_be_bytes());
    application.extend_from_slice(&3u64.to_be_bytes());
    application.extend_from_slice(&0u64.to_be_bytes());
    application.extend_from_slice(&header.application.generated.transactions_root.bytes);
    application.extend_from_slice(&header.application.generated.message_receipt_root.bytes);
    let application_hash = fuel_crypto::Hasher::hash(&application);
    assert_eq!(header.consensus.generated.application_hash, Bytes32::new(*application_hash));

    let mut consensus = Vec::new();
    consensus.extend_from_slice(&[7u8; 32]);
    consensus.extend_from_slice(&0x01020304u32.to_be_bytes());
    consensus.extend_from_slice(&0x0c0d0e0fu64.to_be_bytes());
    consensus.extend_from_slice(&*application_hash);
    assert_eq!(block.id(), BlockId(Bytes32::new(*fuel_crypto::Hasher::hash(&consensus))));
}

#[test]
fn roots_are_the_merkle_roots_of_the_leaves_in_order() {
    let transactions = sample_transactions();
    let messages = [Bytes32::new([1u8; 32]), Bytes32::new([2u8; 32]), Bytes32::new([3u8; 32])];
    let block = Block::new(partial_header(1, 0, 0), sample_transactions(), &messages);

    let mut tree = fuel_merkle::binary::in_memory::MerkleTree::new();
    for tx in &transactions {
        tree.push(&tx.to_bytes());
    }
    assert_eq!(
        block.header().application.generated.transactions_root,
        Bytes32::new(tree.root())
    );

    let mut tree = fuel_merkle::binary::in_memory::MerkleTree::new();
    for id in &messages {
        tree.push(&id.bytes);
    }
    assert_eq!(
        block.header().application.generated.message_receipt_root,
        Bytes32::new(tree.root())
    );

    // the order of the leaves matters
    let mut swapped = sample_transactions();
    swapped.swap(0, 2);
    let other = Block::new(partial_header(1, 0, 0), swapped, &messages);
    assert_ne!(
        other.header().application.generated.transactions_root,
        block.header().application.generated.transactions_root
    );
}

#[test]
fn heights_step_up_and_down_within_their_range() {
    assert_eq!(BlockHeight(0).pred(), None);
    assert_eq!(BlockHeight(1).pred(), Some(BlockHeight(0)));
    assert_eq!(BlockHeight(u32::MAX).succ(), None);
    assert_eq!(BlockHeight(5).succ(), Some(BlockHeight(6)));
    assert_eq!(Bytes32::zeroed(), Bytes32::default());
    assert_eq!(Bytes32::new([3; 32]).to_vec(), vec![3u8; 32]);
}
