use fuel_node::blockchain::primitives::Bytes32;
use fuel_node::blockchain::transaction::{ConsensusParameters, Transaction};
use fuel_node::p2p_test_helpers::{
    address_of, check_consistency, checked_consistency, consistency_of, keys_are_ids, look_up,
    make_config, make_nodes, make_test_tx, map_listener_address, missing_txs, node_name,
    not_found_txs, put, BootstrapSetup, ChainConfig, CoinConfig, Config, Consistency, InsertError,
    InsertionResult, NamedNodes, Node, ProducerSetup, TransactionStorage, TxInsertion, UtxoId,
    ValidatorSetup,
};
use fuel_node::poa::config::{SecretKey, Trigger};
use fuel_node::poa::test_context::test_signing_key;
use fuel_node::text::decimal_text;
use rand::rngs::StdRng;
use rand::SeedableRng;

struct Stored {
    ids: Vec<Bytes32>,
    scripts: usize,
}

impl TransactionStorage for Stored {
    fn contains_key(&self, id: &Bytes32) -> bool {
        self.ids.contains(id)
    }

    fn script_count(&self) -> usize {
        self.scripts
    }
}

struct Pool {
    taken: Vec<Transaction>,
    refuse_at: Option<usize>,
    replace_at: Option<usize>,
}

impl TxInsertion for Pool {
    fn insert(&mut self, tx: Transaction) -> Option<InsertionResult> {
        let place = self.taken.len();
        self.taken.push(tx.clone());
        if self.refuse_at == Some(place) {
            return None;
        }
        let removed = if self.replace_at == Some(place) { vec![tx.clone()] } else { vec![] };
        Some(InsertionResult { inserted: tx, removed })
    }
}

fn key(byte: u8) -> SecretKey {
    SecretKey { bytes: [byte; 32] }
}

#[test]
fn numbers_are_written_in_decimal() {
    assert_eq!(decimal_text(0), "0");
    assert_eq!(decimal_text(7), "7");
    assert_eq!(decimal_text(10), "10");
    assert_eq!(decimal_text(1234567890), "1234567890");
    assert_eq!(decimal_text(usize::MAX), usize::MAX.to_string());
}

#[test]
fn nodes_without_a_name_are_named_by_role_and_place() {
    assert_eq!(node_name(String::new(), "b", 0), "b:0");
    assert_eq!(node_name(String::new(), "p", 12), "p:12");
    assert_eq!(node_name("Alice".to_string(), "v", 3), "Alice");
    assert_eq!(
        map_listener_address(&"12D3KooW".to_string(), &"/ip4/127.0.0.1/tcp/4000".to_string()),
        "/ip4/127.0.0.1/tcp/4000/p2p/12D3KooW"
    );
}

#[test]
fn setups_are_built_step_by_step() {
    let producer = ProducerSetup::new(key(1)).with_txs(3).with_name("Alice");
    assert_eq!(producer.name, "Alice");
    assert_eq!(producer.secret, key(1));
    assert_eq!(producer.num_test_txs, 3);
    let plain = ProducerSetup::new(key(2));
    assert_eq!((plain.name.as_str(), plain.num_test_txs), ("", 0));
    let validator = ValidatorSetup::new(Bytes32::new([5; 32])).with_name(String::from("Bob"));
    assert_eq!(validator.name, "Bob");
    assert_eq!(validator.pub_key, Bytes32::new([5; 32]));
    let bootstrap = BootstrapSetup::new(Bytes32::new([6; 32]));
    assert_eq!(bootstrap.name, "");
    assert_eq!(bootstrap.pub_key, Bytes32::new([6; 32]));
}

#[test]
fn address_is_the_digest_of_the_public_key() {
    let secret = test_signing_key();
    let outside = fuel_crypto::SecretKey::try_from(&secret.bytes[..]).unwrap();
    let owner = fuel_tx::Input::owner(&outside.public_key());
    assert_eq!(address_of(&secret), Some(Bytes32::new(*owner)));
    assert_eq!(address_of(&key(0)), None);
    let coin = ChainConfig::initial_coin(
        &secret,
        77,
        Some(UtxoId { tx_id: Bytes32::new([1; 32]), output_index: 4 }),
    );
    assert_eq!(
        coin,
        Some(CoinConfig {
            tx_id: Some(Bytes32::new([1; 32])),
            output_index: Some(4),
            owner: Bytes32::new(*owner),
            amount: 77,
        })
    );
    assert_eq!(ChainConfig::initial_coin(&key(0), 77, None), None);
    assert_eq!(ChainConfig::initial_coin(&secret, 1, None).unwrap().tx_id, None);
}

#[test]
fn make_config_turns_a_local_node_into_a_network_node() {
    let local = Config::local_node();
    assert!(!local.utxo_validation);
    assert_eq!(local.block_production, Trigger::Instant);
    let mut chain = ChainConfig::local_testnet();
    chain.max_storage_slots = 9;
    let config = make_config("n".to_string(), chain.duplicate());
    assert_eq!(config.name, "n");
    assert_eq!(config.chain_conf, chain);
    assert!(config.utxo_validation);
    assert_eq!(config.consensus_key, None);
    assert!(config.bootstrap_nodes.is_empty());
}

#[test]
fn test_transaction_spends_its_coin_and_is_signed_by_its_owner() {
    let mut rng = StdRng::seed_from_u64(11);
    let (tx, coin) = make_test_tx(&mut rng);
    assert_eq!(tx.gas_limit(), 100_000);
    assert_eq!(coin.amount, 10_000);
    let input = tx.inputs()[0];
    assert_eq!(tx.inputs().len(), 1);
    assert_eq!(Some(input.utxo_tx_id), coin.tx_id);
    assert_eq!(Some(input.utxo_output_index), coin.output_index);
    assert_eq!(input.owner, coin.owner);
    assert_eq!(input.amount, coin.amount);

    // the outside crate reads the same transaction, finds the instruction
    // that returns register one, and accepts the owner's signature
    use_outside_crate_to_check(&tx, &coin);

    let (other, other_coin) = make_test_tx(&mut rng);
    assert_ne!(other.id(&ConsensusParameters::default()), tx.id(&ConsensusParameters::default()));
    assert_ne!(coin, other_coin);
}

fn use_outside_crate_to_check(tx: &Transaction, coin: &CoinConfig) {
    let bytes = tx.to_bytes();
    let decoded: fuel_tx::Transaction =
        fuel_types::canonical::Deserialize::from_bytes(&bytes).expect("a transaction");
    let script = decoded.as_script().expect("a script");
    assert_eq!(fuel_tx::field::Script::script(script).as_slice(), &[0x24, 0x04, 0x00, 0x00]);
    assert_eq!(*fuel_tx::field::ScriptGasLimit::script_gas_limit(script), 100_000);
    let chain = fuel_types::ChainId::new(0);
    let id = fuel_tx::UniqueIdentifier::id(script, &chain);
    assert_eq!(Bytes32::new(*id), tx.id(&ConsensusParameters::default()));
    let witness = &fuel_tx::field::Witnesses::witnesses(script)[0];
    let signature_bytes: [u8; 64] = witness.as_ref().try_into().expect("a signature");
    let signature = fuel_crypto::Signature::from_bytes(signature_bytes);
    let recovered =
        signature.recover(&fuel_crypto::Message::from_bytes(*id)).expect("a public key");
    assert_eq!(Bytes32::new(*fuel_tx::Input::owner(&recovered)), coin.owner);
}

#[test]
fn network_is_laid_out_by_role() {
    let producer_key = test_signing_key();
    let authority = address_of(&producer_key).unwrap();
    let boots = vec!["/ip4/127.0.0.1/tcp/1/p2p/a".to_string()];
    let (nodes, coins) = make_nodes(
        vec![Some(BootstrapSetup::new(authority)), None],
        vec![
            Some(ProducerSetup::new(producer_key).with_txs(3).with_name("Alice")),
            None,
            Some(ProducerSetup::new(key(0)).with_txs(2)),
        ],
        vec![Some(ValidatorSetup::new(authority).with_name("Bob")), None],
        boots.clone(),
    );

    assert_eq!(coins.len(), 5);
    let names = |configs: Vec<&Config>| -> Vec<String> {
        configs.into_iter().map(|c| c.name.clone()).collect()
    };
    assert_eq!(names(nodes.bootstrap_nodes.iter().collect()), vec!["b:0", "b:1"]);
    assert_eq!(
        names(nodes.producers.iter().map(|n| &n.config).collect()),
        vec!["Alice", "p:1", "p:2"]
    );
    assert_eq!(names(nodes.validators.iter().map(|n| &n.config).collect()), vec!["Bob", "v:1"]);

    for config in nodes
        .bootstrap_nodes
        .iter()
        .chain(nodes.producers.iter().map(|n| &n.config))
        .chain(nodes.validators.iter().map(|n| &n.config))
    {
        assert!(config.utxo_validation);
        assert_eq!(config.chain_conf.initial_coins, coins);
        assert_eq!(config.chain_conf.max_storage_slots, 1 << 17);
    }

    assert_eq!(nodes.bootstrap_nodes[0].chain_conf.signing_key, authority);
    assert_eq!(nodes.bootstrap_nodes[1].chain_conf.signing_key, Bytes32::zeroed());
    assert!(nodes.bootstrap_nodes[0].bootstrap_nodes.is_empty());

    let alice = &nodes.producers[0];
    assert_eq!(alice.config.block_production, Trigger::Instant);
    assert_eq!(alice.config.bootstrap_nodes, boots);
    assert_eq!(alice.config.consensus_key, Some(producer_key));
    assert_eq!(alice.config.chain_conf.signing_key, authority);
    assert_eq!(alice.test_txs.len(), 3);
    assert!(nodes.producers[1].test_txs.is_empty());
    assert_eq!(nodes.producers[1].config.consensus_key, None);
    // a key that is no key of the curve leaves the authority as it was
    assert_eq!(nodes.producers[2].config.consensus_key, Some(key(0)));
    assert_eq!(nodes.producers[2].config.chain_conf.signing_key, Bytes32::zeroed());
    assert_eq!(nodes.producers[2].test_txs.len(), 2);

    // each test transaction spends the coin in its place
    let all: Vec<&Transaction> =
        nodes.producers.iter().flat_map(|n| n.test_txs.iter()).collect();
    for (tx, coin) in all.iter().zip(coins.iter()) {
        assert_eq!(Some(tx.inputs()[0].utxo_tx_id), coin.tx_id);
        assert_eq!(tx.inputs()[0].owner, coin.owner);
    }

    let bob = &nodes.validators[0];
    assert_eq!(bob.config.block_production, Trigger::Never);
    assert_eq!(bob.config.bootstrap_nodes, boots);
    assert_eq!(bob.config.chain_conf.signing_key, authority);
    assert!(bob.test_txs.is_empty());
    assert_eq!(bob.config.consensus_key, None);

    // the layout is the same every time
    let (again, coins_again) = make_nodes(
        vec![Some(BootstrapSetup::new(authority)), None],
        vec![
            Some(ProducerSetup::new(producer_key).with_txs(3).with_name("Alice")),
            None,
            Some(ProducerSetup::new(key(0)).with_txs(2)),
        ],
        vec![Some(ValidatorSetup::new(authority).with_name("Bob")), None],
        boots,
    );
    assert_eq!(again, nodes);
    assert_eq!(coins_again, coins);
}

fn expected(txs: &[Transaction]) -> Vec<(Bytes32, Transaction)> {
    txs.iter().map(|tx| (tx.id(&ConsensusParameters::default()), tx.clone())).collect()
}

fn sample() -> Vec<Transaction> {
    vec![
        Transaction::script(1, vec![], vec![]),
        Transaction::script(2, vec![], vec![]),
        Transaction::script(3, vec![], vec![]),
    ]
}

#[test]
fn missing_transactions_are_listed_in_the_expected_order() {
    let txs = expected(&sample());
    let db = Stored { ids: vec![txs[1].0], scripts: 1 };
    assert_eq!(not_found_txs(&db, &txs), vec![txs[0].0, txs[2].0]);
    let full = Stored { ids: vec![txs[2].0, txs[0].0, txs[1].0], scripts: 3 };
    assert!(not_found_txs(&full, &txs).is_empty());
    assert!(not_found_txs(&db, &vec![]).is_empty());
}

#[test]
fn consistency_is_reached_timed_out_or_pending() {
    let txs = expected(&sample());
    let node = Node { config: Config::local_node(), test_txs: sample() };
    let partial = Stored { ids: vec![txs[1].0], scripts: 1 };
    let full = Stored { ids: vec![txs[2].0, txs[0].0, txs[1].0], scripts: 3 };
    let crowded = Stored { ids: vec![txs[2].0, txs[0].0, txs[1].0], scripts: 4 };

    assert_eq!(node.consistency(&partial, &txs), Consistency::Pending);
    assert_eq!(node.consistency(&full, &txs), Consistency::Reached);
    assert_eq!(
        node.consistency(&crowded, &txs),
        Consistency::Mismatch { found: 4, expected: 3 }
    );

    assert_eq!(node.consistency_10s(&partial, &txs, 9_999), Consistency::Pending);
    assert_eq!(node.consistency_10s(&partial, &txs, 10_000), Consistency::TimedOut);
    assert_eq!(node.consistency_10s(&full, &txs, 10_000), Consistency::Reached);
    assert_eq!(node.consistency_20s(&partial, &txs, 10_000), Consistency::Pending);
    assert_eq!(node.consistency_20s(&partial, &txs, 20_000), Consistency::TimedOut);
    assert_eq!(check_consistency(&partial, &txs, u64::MAX, None), Consistency::Pending);
    assert_eq!(check_consistency(&partial, &txs, 5, Some(5)), Consistency::TimedOut);
    assert_eq!(checked_consistency(&full, &txs, 5, Some(5)), Some(Consistency::Reached));
    let mut miskeyed = expected(&sample());
    miskeyed[1].0 = Bytes32::new([0; 32]);
    assert!(keys_are_ids(&txs));
    assert!(!keys_are_ids(&miskeyed));
    assert_eq!(checked_consistency(&full, &miskeyed, 5, Some(5)), None);
    assert_eq!(consistency_of(0, 3, 3, 0, None), Consistency::Reached);
    assert_eq!(consistency_of(1, 3, 3, 7, Some(7)), Consistency::TimedOut);
    assert_eq!(consistency_of(1, 3, 3, 6, Some(7)), Consistency::Pending);
    assert_eq!(consistency_of(0, 2, 3, 6, Some(7)), Consistency::Mismatch { found: 2, expected: 3 });
    assert_eq!(
        missing_txs(&txs, &vec![true, false, false]),
        vec![txs[1].0, txs[2].0]
    );
    assert_eq!(look_up(&partial, &txs), vec![false, true, false]);
}

#[test]
fn test_transactions_are_fed_in_order() {
    let node = Node { config: Config::local_node(), test_txs: sample() };
    let mut pool = Pool { taken: vec![], refuse_at: None, replace_at: None };
    let entries = node.insert_txs(&mut pool).expect("all taken");
    assert_eq!(entries, expected(&sample()));
    assert_eq!(pool.taken, sample());

    let mut pool = Pool { taken: vec![], refuse_at: Some(1), replace_at: None };
    assert_eq!(node.insert_txs(&mut pool), Err(InsertError::Refused(1)));
    assert_eq!(pool.taken.len(), 2);

    let mut pool = Pool { taken: vec![], refuse_at: None, replace_at: Some(2) };
    assert_eq!(node.insert_txs(&mut pool), Err(InsertError::Replaced(2)));
    assert_eq!(pool.taken.len(), 3);
}

#[test]
fn a_transaction_that_is_fed_twice_is_expected_once() {
    let txs = sample();
    let node = Node {
        config: Config::local_node(),
        test_txs: vec![txs[0].clone(), txs[1].clone(), txs[0].clone()],
    };
    let mut pool = Pool { taken: vec![], refuse_at: None, replace_at: None };
    let entries = node.insert_txs(&mut pool).expect("all taken");
    // the pool was asked for each, and the identifier stands once
    assert_eq!(pool.taken.len(), 3);
    assert_eq!(entries, expected(&txs[..2]));
    assert!(keys_are_ids(&entries));
}

#[test]
fn an_entry_is_put_under_its_identifier() {
    let txs = sample();
    let mut entries = expected(&txs[..2]);
    let id = entries[0].0;
    // an identifier that stands already keeps its place
    put(&mut entries, (id, txs[2].clone()));
    assert_eq!(entries.len(), 2);
    assert_eq!(entries[0], (id, txs[2].clone()));
    assert_eq!(entries[1], expected(&txs[..2])[1]);
    // a new one goes to the end
    let other = Bytes32::new([9u8; 32]);
    put(&mut entries, (other, txs[0].clone()));
    assert_eq!(entries.len(), 3);
    assert_eq!(entries[2], (other, txs[0].clone()));
}

#[test]
fn nodes_are_found_by_name() {
    let named = |name: &str, slots: u64| {
        let mut chain = ChainConfig::local_testnet();
        chain.max_storage_slots = slots;
        Node { config: make_config(name.to_string(), chain), test_txs: vec![] }
    };
    let nodes = NamedNodes::from(vec![named("a", 1), named("b", 2), named("a", 3)]);
    // of the two nodes of one name the later one stays, in the place of the first
    assert_eq!(nodes.0.len(), 2);
    assert_eq!(nodes.position("a"), Some(0));
    assert_eq!(nodes.position("b"), Some(1));
    assert_eq!(nodes.get("a").unwrap().config.chain_conf.max_storage_slots, 3);
    assert_eq!(nodes.get("b").unwrap().config.chain_conf.max_storage_slots, 2);
    assert!(nodes.get("c").is_none());
    assert_eq!(NamedNodes::from(vec![]).position("a"), None);
}
