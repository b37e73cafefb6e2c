use fuel_node::blockchain::primitives::{Bytes32 as RawBytes32, Tai64};
use fuel_node::client::schema::block::{
    Block, BlockConnection, BlockEdge, Consensus, Genesis, Header, PoAConsensus,
};
use fuel_node::client::schema::message::{
    Message, MessageConnection, MessageEdge, OwnedMessagesConnectionArgs,
};
use fuel_node::client::schema::primitives::{
    Address, BlockId, Bytes32, HexString, Nonce, PublicKey, Signature, Tai64Timestamp,
    TransactionId, U32, U64,
};
use fuel_node::client::schema::tx::TransactionIdFragment;
use fuel_node::client::schema::{
    connection_args, ConnectionArgs, ConversionError, PageDirection, PageInfo, PaginatedResult, PaginationRequest,
};

fn request(cursor: Option<&str>, results: usize, direction: PageDirection) -> PaginationRequest<String> {
    PaginationRequest { cursor: cursor.map(|c| c.to_string()), results, direction }
}

fn page_info() -> PageInfo {
    PageInfo {
        end_cursor: Some("end".to_string()),
        has_next_page: true,
        has_previous_page: false,
        start_cursor: Some("start".to_string()),
    }
}

fn word(byte: u8) -> Bytes32 {
    Bytes32(RawBytes32::new([byte; 32]))
}

fn block(id: [u8; 32], consensus: Consensus) -> Block {
    Block {
        id: BlockId(RawBytes32::new(id)),
        header: Header {
            id: BlockId(RawBytes32::new(id)),
            da_height: U64(1),
            transactions_count: U64(2),
            message_receipt_count: U64(3),
            transactions_root: word(4),
            message_receipt_root: word(5),
            height: U32(6),
            prev_root: word(7),
            time: Tai64Timestamp(Tai64(8)),
            application_hash: word(9),
        },
        consensus,
        transactions: vec![TransactionIdFragment { id: TransactionId(RawBytes32::new([1; 32])) }],
    }
}

fn parts(args: ConnectionArgs) -> (Option<String>, Option<String>, Option<i32>, Option<i32>) {
    (args.after, args.before, args.first, args.last)
}

#[test]
fn connection_args_follow_the_direction() {
    assert_eq!(
        parts(connection_args(Some("c".to_string()), 10, PageDirection::Forward)),
        (Some("c".to_string()), None, Some(10), None)
    );
    assert_eq!(
        parts(connection_args(Some("c".to_string()), 7, PageDirection::Backward)),
        (None, Some("c".to_string()), None, Some(7))
    );
    assert_eq!(
        parts(connection_args(None, (1usize << 32) + 5, PageDirection::Forward)),
        (None, None, Some(5), None)
    );
    assert_eq!(
        parts(connection_args(None, i32::MAX as usize + 1, PageDirection::Backward)),
        (None, None, None, Some(i32::MIN))
    );
    assert_eq!(
        parts(ConnectionArgs::from(request(Some("c"), 10, PageDirection::Forward))),
        parts(connection_args(Some("c".to_string()), 10, PageDirection::Forward))
    );
}

#[test]
fn forward_request_skips_after_the_cursor_and_takes_the_first() {
    let args = ConnectionArgs::from(request(Some("c"), 10, PageDirection::Forward));
    assert_eq!(args.after.as_deref(), Some("c"));
    assert_eq!(args.before, None);
    assert_eq!(args.first, Some(10));
    assert_eq!(args.last, None);
    let args = ConnectionArgs::from(PaginationRequest::<&str> {
        cursor: None,
        results: 0,
        direction: PageDirection::Forward,
    });
    assert_eq!((args.after, args.first), (None, Some(0)));
}

#[test]
fn backward_request_skips_before_the_cursor_and_takes_the_last() {
    let args = ConnectionArgs::from(request(Some("c"), 7, PageDirection::Backward));
    assert_eq!(args.before.as_deref(), Some("c"));
    assert_eq!(args.after, None);
    assert_eq!(args.first, None);
    assert_eq!(args.last, Some(7));
}

#[test]
fn page_size_is_cut_to_thirty_two_bits() {
    let args = ConnectionArgs::from(request(None, i32::MAX as usize, PageDirection::Forward));
    assert_eq!(args.first, Some(i32::MAX));
    let args = ConnectionArgs::from(request(None, i32::MAX as usize + 1, PageDirection::Forward));
    assert_eq!(args.first, Some(i32::MIN));
    let args = ConnectionArgs::from(request(None, (1usize << 32) + 5, PageDirection::Backward));
    assert_eq!(args.last, Some(5));
    let default = ConnectionArgs::default();
    assert_eq!((default.after, default.before, default.first, default.last), (None, None, None, None));
}

#[test]
fn owned_messages_request_carries_the_owner() {
    let owner = Some(Address(RawBytes32::new([3; 32])));
    let args = OwnedMessagesConnectionArgs::from((owner, request(Some("c"), 4, PageDirection::Forward)));
    assert_eq!(args.owner, owner);
    assert_eq!(args.after.as_deref(), Some("c"));
    assert_eq!((args.before, args.first, args.last), (None, Some(4), None));
    let args = OwnedMessagesConnectionArgs::from((None, request(Some("c"), 4, PageDirection::Backward)));
    assert_eq!(args.owner, None);
    assert_eq!(args.before.as_deref(), Some("c"));
    assert_eq!((args.after, args.first, args.last), (None, None, Some(4)));
}

#[test]
fn pages_keep_the_order_of_their_edges() {
    let edges = vec![
        BlockEdge { cursor: "1".to_string(), node: block([1; 32], Consensus::Unknown) },
        BlockEdge { cursor: "2".to_string(), node: block([2; 32], Consensus::Unknown) },
        BlockEdge { cursor: "3".to_string(), node: block([3; 32], Consensus::Unknown) },
    ];
    let page = PaginatedResult::<Block, String>::from(BlockConnection { edges, page_info: page_info() });
    assert_eq!(page.cursor.as_deref(), Some("end"));
    assert!(page.has_next_page);
    assert!(!page.has_previous_page);
    let ids: Vec<BlockId> = page.results.iter().map(|b| b.id).collect();
    assert_eq!(
        ids,
        vec![
            BlockId(RawBytes32::new([1; 32])),
            BlockId(RawBytes32::new([2; 32])),
            BlockId(RawBytes32::new([3; 32]))
        ]
    );

    let message = |amount: u64| Message {
        amount: U64(amount),
        sender: Address(RawBytes32::new([1; 32])),
        recipient: Address(RawBytes32::new([2; 32])),
        nonce: Nonce(RawBytes32::new([3; 32])),
        data: HexString(vec![1, 2]),
        da_height: U64(9),
    };
    let edges = vec![
        MessageEdge { cursor: "1".to_string(), node: message(10) },
        MessageEdge { cursor: "2".to_string(), node: message(20) },
    ];
    let page =
        PaginatedResult::<Message, String>::from(MessageConnection { edges, page_info: page_info() });
    let amounts: Vec<u64> = page.results.iter().map(|m| m.amount.0).collect();
    assert_eq!(amounts, vec![10, 20]);
    assert_eq!(page.cursor.as_deref(), Some("end"));
    let empty = PaginatedResult::<Message, String>::from(MessageConnection {
        edges: vec![],
        page_info: page_info(),
    });
    assert!(empty.results.is_empty());
}

#[test]
fn block_producer_is_told_by_the_consensus() {
    let genesis = Genesis {
        chain_config_hash: word(1),
        coins_root: word(2),
        contracts_root: word(3),
        messages_root: word(4),
    };
    assert_eq!(
        block([7; 32], Consensus::Genesis(genesis)).block_producer(),
        Some(PublicKey([0; 64]))
    );
    assert_eq!(block([7; 32], Consensus::Unknown).block_producer(), None);

    let secret = fuel_crypto::SecretKey::try_from(&[9u8; 32][..]).unwrap();
    let id = [7u8; 32];
    let signature = fuel_crypto::Signature::sign(&secret, &fuel_crypto::Message::from_bytes(id));
    let sealed = block(id, Consensus::PoAConsensus(PoAConsensus { signature: Signature(*signature) }));
    assert_eq!(sealed.block_producer(), Some(PublicKey(*secret.public_key())));
    // the same seal on another block recovers to another key
    let other = block([8; 32], Consensus::PoAConsensus(PoAConsensus { signature: Signature(*signature) }));
    assert_ne!(other.block_producer(), Some(PublicKey(*secret.public_key())));
    // a seal that is no signature recovers to no key
    let broken = block(id, Consensus::PoAConsensus(PoAConsensus { signature: Signature([0xff; 64]) }));
    assert_eq!(broken.block_producer(), None);
}

#[test]
fn hex_text_is_read_with_its_prefix() {
    assert_eq!(HexString::parse("0x").unwrap(), HexString(vec![]));
    assert_eq!(HexString::parse("0x00ffAb10").unwrap(), HexString(vec![0x00, 0xff, 0xab, 0x10]));
    assert!(matches!(HexString::parse("00ff"), Err(ConversionError::HexStringPrefixError)));
    assert!(matches!(HexString::parse(""), Err(ConversionError::HexStringPrefixError)));
    assert!(matches!(HexString::parse("0X00"), Err(ConversionError::HexStringPrefixError)));
    assert!(matches!(
        HexString::parse("0x123"),
        Err(ConversionError::HexDecodingError(hex::FromHexError::OddLength))
    ));
    assert!(matches!(
        HexString::parse("0x0g"),
        Err(ConversionError::HexDecodingError(hex::FromHexError::InvalidHexCharacter {
            c: 'g',
            index: 1
        }))
    ));
    assert!(matches!(HexString::parse("0x\u{e9}0"), Err(ConversionError::HexDecodingError(_))));

    let text = format!("0x{}", "ab".repeat(32));
    assert_eq!(Bytes32::parse(&text).unwrap(), word(0xab));
    assert!(matches!(
        Bytes32::parse("0xabab"),
        Err(ConversionError::HexString256LengthError(2))
    ));
    assert!(matches!(Bytes32::parse("abab"), Err(ConversionError::HexStringPrefixError)));
    assert!(matches!(Bytes32::parse("0xzz"), Err(ConversionError::HexDecodingError(_))));
}

#[test]
fn conversion_errors_say_what_went_wrong() {
    assert_eq!(
        ConversionError::MissingField("block".to_string()).message(),
        "Field is required from the GraphQL response block"
    );
    assert_eq!(ConversionError::HexStringPrefixError.message(), "expected 0x prefix");
    assert_eq!(
        ConversionError::HexString256LengthError(31).message(),
        "expected 32 bytes, received 31"
    );
    assert_eq!(
        ConversionError::HexDecodingError(hex::FromHexError::OddLength).message(),
        "hex parsing error Odd number of digits"
    );
    assert_eq!(ConversionError::from(hex::FromHexError::OddLength).message(), "hex parsing error Odd number of digits");
    assert_eq!(ConversionError::HexError("bad".to_string()).message(), "hex parsing error bad");
    assert_eq!(ConversionError::IntegerConversion.message(), "failed integer conversion");
    assert_eq!(
        ConversionError::BytesLength.message(),
        "failed to convert from bytes due to unexpected length"
    );
    assert_eq!(
        ConversionError::UnknownVariant("Consensus").message(),
        "Unknown variant of the Consensus enum"
    );
    let broken = || std::io::Error::new(std::io::ErrorKind::UnexpectedEof, "cut short");
    assert_eq!(
        ConversionError::TransactionFromBytesError(broken()).message(),
        "failed to deserialize transaction from bytes cut short"
    );
    assert_eq!(
        ConversionError::ReceiptFromBytesError(broken()).message(),
        "failed to deserialize receipt from bytes cut short"
    );
    let overflow = u8::try_from(300u32).unwrap_err();
    assert!(matches!(ConversionError::from(overflow), ConversionError::IntegerConversion));
}
