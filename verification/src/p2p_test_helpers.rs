//! Helpers for laying out a network of nodes: who produces, who validates,
//! who the others find each other through, and what each node is
//! configured with.

use vstd::prelude::*;
use vstd::std_specs::convert::IntoSpec;
use crate::blockchain::primitives::Bytes32;
use crate::blockchain::transaction::{CoinInput, ConsensusParameters, Transaction};
use crate::outside::{
    draw_bytes32, draw_in_range, draw_secret_key, hash, public_key, public_key_of, seeded_rng,
    sha256, sign, signature_of,
};
use crate::poa::config::{SecretKey, Trigger};
use crate::lists::reversed;
use crate::text::{decimal, decimal_text};

verus! {

/// The address of an owner.
pub type Address = Bytes32;

/// The seed of the generator that the test transactions are drawn from.
pub const NETWORK_SEED: u64 = 11;

/// The amount of the coin that a test transaction spends.
pub const TEST_COIN_AMOUNT: u64 = 10000;

/// The gas limit of a test transaction.
pub const TEST_GAS_LIMIT: u64 = 100000;

/// The number of storage slots that the test chain allows.
pub const TEST_MAX_STORAGE_SLOTS: u64 = 131072;

/// Setup for a producer node.
#[derive(Clone)]
pub struct ProducerSetup {
    /// Name of the producer.
    pub name: String,
    /// Secret key used to sign blocks.
    pub secret: SecretKey,
    /// Number of test transactions to create for this producer.
    pub num_test_txs: usize,
}

/// Setup for a validator node.
#[derive(Clone)]
pub struct ValidatorSetup {
    /// Name of the validator.
    pub name: String,
    /// Address of the producer to sync from.
    pub pub_key: Address,
}

/// Setup for a bootstrap node.
#[derive(Clone)]
pub struct BootstrapSetup {
    /// Name of the bootstrap node.
    pub name: String,
    /// Address of the producer of the network.
    pub pub_key: Address,
}

impl ProducerSetup {
    /// A producer that signs with `secret`, without a name and without
    /// test transactions.
    pub fn new(secret: SecretKey) -> (setup: Self)
        ensures
            setup.name@.len() == 0,
            setup.secret == secret,
            setup.num_test_txs == 0,
    {
        ProducerSetup { name: String::new(), secret, num_test_txs: 0 }
    }

    /// The same producer with `num_test_txs` test transactions.
    pub fn with_txs(self, num_test_txs: usize) -> (setup: Self)
        ensures
            setup.name == self.name,
            setup.secret == self.secret,
            setup.num_test_txs == num_test_txs,
    {
        ProducerSetup { name: self.name, secret: self.secret, num_test_txs }
    }

    /// The same producer under the name `name`.
    pub fn with_name<N: Into<String>>(self, name: N) -> (setup: Self)
        ensures
            N::obeys_into_spec() ==> setup.name == name.into_spec(),
            setup.secret == self.secret,
            setup.num_test_txs == self.num_test_txs,
    {
        ProducerSetup { name: name.into(), secret: self.secret, num_test_txs: self.num_test_txs }
    }
}

impl ValidatorSetup {
    /// A validator that syncs from the producer at `pub_key`, without a
    /// name.
    pub fn new(pub_key: Address) -> (setup: Self)
        ensures
            setup.name@.len() == 0,
            setup.pub_key == pub_key,
    {
        ValidatorSetup { pub_key, name: String::new() }
    }

    /// The same validator under the name `name`.
    pub fn with_name<N: Into<String>>(self, name: N) -> (setup: Self)
        ensures
            N::obeys_into_spec() ==> setup.name == name.into_spec(),
            setup.pub_key == self.pub_key,
    {
        ValidatorSetup { name: name.into(), pub_key: self.pub_key }
    }
}

impl BootstrapSetup {
    /// A bootstrap node of the network whose producer is at `pub_key`,
    /// without a name.
    pub fn new(pub_key: Address) -> (setup: Self)
        ensures
            setup.name@.len() == 0,
            setup.pub_key == pub_key,
    {
        BootstrapSetup { pub_key, name: String::new() }
    }
}

/// A coin that the chain starts with.
#[derive(Clone, Copy, Debug, PartialEq, Eq)]
pub struct CoinConfig {
    /// The transaction that is taken to have created the coin.
    pub tx_id: Option<Bytes32>,
    /// The place of the coin among that transaction's outputs.
    pub output_index: Option<u16>,
    /// The owner of the coin.
    pub owner: Address,
    /// The amount of the coin.
    pub amount: u64,
}

/// The place of an output: a transaction and an index.
#[derive(Clone, Copy, Debug, PartialEq, Eq)]
pub struct UtxoId {
    /// The transaction.
    pub tx_id: Bytes32,
    /// The place among its outputs.
    pub output_index: u16,
}

/// What a chain starts with.
#[derive(Debug, PartialEq, Eq)]
pub struct ChainConfig {
    /// The address of the authority whose seal the chain accepts.
    pub signing_key: Address,
    /// The coins that exist from the start.
    pub initial_coins: Vec<CoinConfig>,
    /// The number of storage slots that a contract may be created with.
    pub max_storage_slots: u64,
}

/// The settings of a node.
#[derive(Debug, PartialEq, Eq)]
pub struct Config {
    /// The name of the node.
    pub name: String,
    /// What the chain starts with.
    pub chain_conf: ChainConfig,
    /// Whether inputs are checked to exist and to be unspent.
    pub utxo_validation: bool,
    /// When the node produces blocks.
    pub block_production: Trigger,
    /// The addresses through which the node finds the network.
    pub bootstrap_nodes: Vec<String>,
    /// The key that the node seals blocks with, where it is an authority.
    pub consensus_key: Option<SecretKey>,
}

/// The address that owns what the public key `key` signs for: the digest
/// of the key.
pub open spec fn spec_owner(key: Seq<u8>) -> Seq<u8> {
    sha256(key)
}

/// The address of the owner whose secret key is `secret`; none where the
/// bytes are no secret key.
pub open spec fn spec_address_of(secret: Seq<u8>) -> Option<Seq<u8>> {
    match public_key_of(secret) {
        Some(key) => Some(spec_owner(key)),
        None => None,
    }
}

/// Computes the address of the owner whose secret key is `secret`.
pub fn address_of(secret: &SecretKey) -> (address: Option<Address>)
    ensures
        address.is_some() == spec_address_of(secret.bytes@).is_some(),
        address matches Some(a) ==> Some(a@) == spec_address_of(secret.bytes@),
{
    match public_key(&secret.bytes) {
        None => None,
        Some(key) => Some(hash(key.as_slice())),
    }
}

impl ChainConfig {
    /// The chain of a local test network: no coins, and no authority yet.
    pub fn local_testnet() -> (chain: Self)
        ensures
            chain.signing_key@ == Bytes32::zero_bytes(),
            chain.initial_coins@.len() == 0,
    {
        ChainConfig {
            signing_key: Bytes32::zeroed(),
            initial_coins: Vec::new(),
            max_storage_slots: 255,
        }
    }

    /// A coin of `amount` for the owner with the secret key `secret`, at
    /// `utxo_id` where one is given; none where the bytes are no secret key.
    pub fn initial_coin(secret: &SecretKey, amount: u64, utxo_id: Option<UtxoId>) -> (coin: Option<
        CoinConfig,
    >)
        ensures
            coin.is_some() == public_key_of(secret.bytes@).is_some(),
            coin matches Some(c) ==> {
                &&& Some(c.owner@) == spec_address_of(secret.bytes@)
                &&& c.amount == amount
                &&& c.tx_id == (match utxo_id {
                    Some(id) => Some(id.tx_id),
                    None => None,
                })
                &&& c.output_index == (match utxo_id {
                    Some(id) => Some(id.output_index),
                    None => None,
                })
            },
    {
        match address_of(secret) {
            None => None,
            Some(owner) => Some(
                match utxo_id {
                    Some(id) => CoinConfig {
                        tx_id: Some(id.tx_id),
                        output_index: Some(id.output_index),
                        owner,
                        amount,
                    },
                    None => CoinConfig { tx_id: None, output_index: None, owner, amount },
                },
            ),
        }
    }

    /// A copy of the chain configuration.
    pub fn duplicate(&self) -> (copy: Self)
        ensures
            copy.signing_key == self.signing_key,
            copy.initial_coins@ == self.initial_coins@,
            copy.max_storage_slots == self.max_storage_slots,
    {
        let mut coins: Vec<CoinConfig> = Vec::new();
        let mut i: usize = 0;
        while i < self.initial_coins.len()
            invariant
                i <= self.initial_coins.len(),
                coins@ == self.initial_coins@.subrange(0, i as int),
            decreases self.initial_coins.len() - i,
        {
            coins.push(self.initial_coins[i]);
            assert(coins@ =~= self.initial_coins@.subrange(0, i + 1));
            i += 1;
        }
        assert(coins@ =~= self.initial_coins@);
        ChainConfig {
            signing_key: self.signing_key,
            initial_coins: coins,
            max_storage_slots: self.max_storage_slots,
        }
    }
}

impl Config {
    /// The settings of a node that runs alone on a local test network:
    /// without a name, it produces a block as soon as a transaction waits,
    /// checks no inputs, knows no other node and holds no key.
    pub fn local_node() -> (config: Self)
        ensures
            config.name@.len() == 0,
            !config.utxo_validation,
            config.block_production == Trigger::Instant,
            config.bootstrap_nodes@.len() == 0,
            config.consensus_key.is_none(),
            config.chain_conf.initial_coins@.len() == 0,
            config.chain_conf.signing_key@ == Bytes32::zero_bytes(),
    {
        Config {
            name: String::new(),
            chain_conf: ChainConfig::local_testnet(),
            utxo_validation: false,
            block_production: Trigger::Instant,
            bootstrap_nodes: Vec::new(),
            consensus_key: None,
        }
    }
}

/// The settings of a node of a test network: those of a local node, on the
/// given chain, under the given name, with inputs checked.
pub fn make_config(name: String, chain_config: ChainConfig) -> (config: Config)
    ensures
        config.name == name,
        config.chain_conf == chain_config,
        config.utxo_validation,
        config.block_production == Trigger::Instant,
        config.bootstrap_nodes@.len() == 0,
        config.consensus_key.is_none(),
{
    let mut node_config = Config::local_node();
    node_config.chain_conf = chain_config;
    node_config.utxo_validation = true;
    node_config.name = name;
    node_config
}

/// The name of a node: the one it was given, or, where it was given none,
/// the mark of its role, a colon and its place among the nodes of its role.
pub open spec fn spec_node_name(given: Seq<char>, role: Seq<char>, index: nat) -> Seq<char> {
    if given.len() > 0 {
        given
    } else {
        role + seq![':'] + decimal(index)
    }
}

/// Names a node.
pub fn node_name(given: String, role: &str, index: usize) -> (name: String)
    ensures
        name@ == spec_node_name(given@, role@, index as nat),
{
    if !given.as_str().is_empty() {
        given
    } else {
        proof {
            reveal_strlit(":");
        }
        let mut name = String::from_str(role);
        name.append(":");
        let place = decimal_text(index);
        name.append(place.as_str());
        assert(name@ =~= role@ + seq![':'] + decimal(index as nat));
        name
    }
}

/// The address under which a bootstrap node is reached: where it listens,
/// and who it is.
pub open spec fn spec_listener_address(bootstrap_id: Seq<char>, addr: Seq<char>) -> Seq<char> {
    addr + "/p2p/"@ + bootstrap_id
}

/// Puts together the address under which a bootstrap node is reached.
pub fn map_listener_address(bootstrap_id: &String, addr: &String) -> (address: String)
    ensures
        address@ == spec_listener_address(bootstrap_id@, addr@),
{
    let mut address = addr.clone();
    address.append("/p2p/");
    address.append(bootstrap_id.as_str());
    address
}

/// The script of a test transaction: one instruction, which returns
/// register one.
pub open spec fn test_script() -> Seq<u8> {
    seq![0x24u8, 0x04u8, 0x00u8, 0x00u8]
}

/// Whether `tx` is a test transaction that spends `coin`: it runs the test
/// script within the test gas limit, and its one input is the coin, signed
/// for by its first witness.
pub open spec fn spends(tx: Transaction, coin: CoinConfig) -> bool {
    &&& tx@.gas_limit == TEST_GAS_LIMIT
    &&& tx@.script == test_script()
    &&& tx@.script_data.len() == 0
    &&& tx@.inputs.len() == 1
    &&& tx@.witnesses.len() == 1
    &&& coin.tx_id == Some(tx@.inputs[0].utxo_tx_id)
    &&& coin.output_index == Some(tx@.inputs[0].utxo_output_index)
    &&& coin.owner == tx@.inputs[0].owner
    &&& coin.amount == tx@.inputs[0].amount
    &&& coin.amount == TEST_COIN_AMOUNT
    &&& tx@.inputs[0].witness_index == 0
}

/// Whether the owner of `coin` is the one with the secret key `secret`,
/// and the first witness of `tx` that key's signature over the identifier
/// of `tx`.
pub open spec fn signed_by(tx: Transaction, coin: CoinConfig, secret: Seq<u8>) -> bool {
    &&& public_key_of(secret).is_some()
    &&& Some(coin.owner@) == spec_address_of(secret)
    &&& tx@.witnesses.len() > 0
    &&& Some(tx@.witnesses[0]) == signature_of(
        secret,
        tx@.id(crate::blockchain::transaction::DEFAULT_CHAIN_ID),
    )
}

/// Draws a test transaction and the coin it spends: a new owner, a new
/// place for the coin, and the owner's signature over the transaction.
/// Nothing is said of which owner and which place are drawn.
pub fn make_test_tx(rng: &mut rand::rngs::StdRng) -> (pair: (Transaction, CoinConfig))
    ensures
        spends(pair.0, pair.1),
        exists|secret: Seq<u8>| #[trigger] signed_by(pair.0, pair.1, secret),
{
    let secret = SecretKey { bytes: draw_secret_key(rng) };
    let tx_id = Bytes32::new(draw_bytes32(rng));
    let output_index = draw_in_range(rng, 0, 0x1_0000) as u16;
    let owner = match address_of(&secret) {
        Some(owner) => owner,
        None => Bytes32::zeroed(),
    };
    let coin = CoinConfig {
        tx_id: Some(tx_id),
        output_index: Some(output_index),
        owner,
        amount: TEST_COIN_AMOUNT,
    };
    let input = CoinInput {
        utxo_tx_id: tx_id,
        utxo_output_index: output_index,
        owner,
        amount: TEST_COIN_AMOUNT,
        witness_index: 0,
    };
    let mut script: Vec<u8> = Vec::new();
    script.push(0x24);
    script.push(0x04);
    script.push(0x00);
    script.push(0x00);
    assert(script@ =~= test_script());
    let mut inputs: Vec<CoinInput> = Vec::new();
    inputs.push(input);
    let mut unsigned_witnesses: Vec<Vec<u8>> = Vec::new();
    unsigned_witnesses.push(Vec::new());
    let unsigned = Transaction::script_with_inputs(
        TEST_GAS_LIMIT,
        script.clone(),
        Vec::new(),
        inputs.clone(),
        unsigned_witnesses,
    );
    let id = unsigned.id(&ConsensusParameters::default());
    let mut witness: Vec<u8> = Vec::new();
    match sign(&secret.bytes, &id.bytes) {
        Some(signature) => {
            let mut i: usize = 0;
            while i < 64
                invariant
                    i <= 64,
                    witness@ == signature@.subrange(0, i as int),
                decreases 64 - i,
            {
                witness.push(signature[i]);
                assert(witness@ =~= signature@.subrange(0, i + 1));
                i += 1;
            }
            assert(witness@ =~= signature@);
        },
        None => {},
    }
    let mut witnesses: Vec<Vec<u8>> = Vec::new();
    witnesses.push(witness);
    let tx = Transaction::script_with_inputs(TEST_GAS_LIMIT, script, Vec::new(), inputs, witnesses);
    proof {
        assert(tx@.without_witnesses() =~= unsigned@.without_witnesses());
        assert(signed_by(tx, coin, secret.bytes@));
    }
    (tx, coin)
}

/// A node as it is laid out: its settings and the test transactions that it
/// will be fed.
#[derive(Debug, PartialEq, Eq)]
pub struct Node {
    /// The settings of the node.
    pub config: Config,
    /// The test transactions of the node.
    pub test_txs: Vec<Transaction>,
}

/// The nodes of a network as they are laid out.
#[derive(Debug, PartialEq, Eq)]
pub struct Nodes {
    /// The settings of the bootstrap nodes.
    pub bootstrap_nodes: Vec<Config>,
    /// The producers.
    pub producers: Vec<Node>,
    /// The validators.
    pub validators: Vec<Node>,
}

/// The name that a setup gives, or none.
pub open spec fn given_name(name: Option<String>) -> Seq<char> {
    match name {
        Some(name) => name@,
        None => Seq::empty(),
    }
}

/// The texts of a list of strings.
pub open spec fn texts(list: Seq<String>) -> Seq<Seq<char>> {
    list.map_values(|s: String| s@)
}

/// What every node of a test network is configured with: its name, the
/// coins of all test transactions, inputs checked, and the addresses of the
/// bootstrap nodes.
pub open spec fn is_network_config(
    config: Config,
    given: Seq<char>,
    role: Seq<char>,
    index: nat,
    coins: Seq<CoinConfig>,
) -> bool {
    &&& config.name@ == spec_node_name(given, role, index)
    &&& config.utxo_validation
    &&& config.chain_conf.initial_coins@ == coins
    &&& config.chain_conf.max_storage_slots == TEST_MAX_STORAGE_SLOTS
}

/// The settings of the bootstrap node at `index`: it takes no part in
/// production beyond what a local node does, and where it has a setup, the
/// chain's authority is the setup's.
pub open spec fn is_bootstrap_config(
    config: Config,
    setup: Option<BootstrapSetup>,
    index: nat,
    coins: Seq<CoinConfig>,
) -> bool {
    &&& is_network_config(
        config,
        given_name(
            match setup {
                Some(s) => Some(s.name),
                None => None,
            },
        ),
        "b"@,
        index,
        coins,
    )
    &&& config.consensus_key.is_none()
    &&& config.bootstrap_nodes@.len() == 0
    &&& match setup {
        Some(s) => config.chain_conf.signing_key == s.pub_key,
        None => config.chain_conf.signing_key@ == Bytes32::zero_bytes(),
    }
}

/// The producer at `index`: it produces as soon as a transaction waits and
/// finds the network through `boots`. Where it has a setup, it seals with
/// the setup's key, the chain's authority is that key's address, and it
/// has as many test transactions as the setup asks for.
pub open spec fn is_producer(
    node: Node,
    setup: Option<ProducerSetup>,
    index: nat,
    coins: Seq<CoinConfig>,
    boots: Seq<Seq<char>>,
) -> bool {
    &&& is_network_config(
        node.config,
        given_name(
            match setup {
                Some(s) => Some(s.name),
                None => None,
            },
        ),
        "p"@,
        index,
        coins,
    )
    &&& node.config.block_production == Trigger::Instant
    &&& texts(node.config.bootstrap_nodes@) == boots
    &&& match setup {
        Some(s) => {
            &&& node.config.consensus_key == Some(s.secret)
            &&& node.test_txs@.len() == s.num_test_txs
            &&& match spec_address_of(s.secret.bytes@) {
                Some(address) => node.config.chain_conf.signing_key@ == address,
                None => node.config.chain_conf.signing_key@ == Bytes32::zero_bytes(),
            }
        },
        None => {
            &&& node.config.consensus_key.is_none()
            &&& node.test_txs@.len() == 0
            &&& node.config.chain_conf.signing_key@ == Bytes32::zero_bytes()
        },
    }
}

/// The validator at `index`: it never produces and finds the network
/// through `boots`; where it has a setup, the chain's authority is the
/// setup's. It has no test transactions.
pub open spec fn is_validator(
    node: Node,
    setup: Option<ValidatorSetup>,
    index: nat,
    coins: Seq<CoinConfig>,
    boots: Seq<Seq<char>>,
) -> bool {
    &&& is_network_config(
        node.config,
        given_name(
            match setup {
                Some(s) => Some(s.name),
                None => None,
            },
        ),
        "v"@,
        index,
        coins,
    )
    &&& node.config.block_production == Trigger::Never
    &&& texts(node.config.bootstrap_nodes@) == boots
    &&& node.config.consensus_key.is_none()
    &&& node.test_txs@.len() == 0
    &&& match setup {
        Some(s) => node.config.chain_conf.signing_key == s.pub_key,
        None => node.config.chain_conf.signing_key@ == Bytes32::zero_bytes(),
    }
}

/// Each of `txs` spends a coin of its own: the first one the coin at
/// `offset` among `coins`, the next one the next coin, and so on.
pub open spec fn spend_coins_from(txs: Seq<Transaction>, coins: Seq<CoinConfig>, offset: nat) -> bool {
    &&& offset + txs.len() <= coins.len()
    &&& forall|j: int| 0 <= j < txs.len() ==> spends(#[trigger] txs[j], coins[offset + j])
}

/// Coins that come later take nothing from the transactions that spend the
/// earlier ones.
pub proof fn lemma_more_coins_change_nothing(
    txs: Seq<Transaction>,
    coins: Seq<CoinConfig>,
    more: Seq<CoinConfig>,
    offset: nat,
)
    requires
        spend_coins_from(txs, coins, offset),
        coins.len() <= more.len(),
        more.subrange(0, coins.len() as int) == coins,
    ensures
        spend_coins_from(txs, more, offset),
{
    assert forall|j: int| 0 <= j < txs.len() implies spends(#[trigger] txs[j], more[offset + j]) by {
        assert(more.subrange(0, coins.len() as int)[offset + j] == more[offset + j]);
    }
}

/// The number of test transactions that the first `count` producers ask
/// for, all together.
pub open spec fn test_txs_before(setups: Seq<Option<ProducerSetup>>, count: nat) -> nat
    decreases count,
{
    if count == 0 || count > setups.len() {
        0
    } else {
        test_txs_before(setups, (count - 1) as nat) + (match setups[count - 1] {
            Some(s) => s.num_test_txs as nat,
            None => 0,
        })
    }
}

/// Copies a list of strings.
pub fn clone_strings(list: &Vec<String>) -> (copy: Vec<String>)
    ensures
        copy@ == list@,
{
    let mut copy: Vec<String> = Vec::new();
    let mut i: usize = 0;
    while i < list.len()
        invariant
            i <= list.len(),
            copy@ == list@.subrange(0, i as int),
        decreases list.len() - i,
    {
        copy.push(list[i].clone());
        assert(copy@ =~= list@.subrange(0, i + 1));
        i += 1;
    }
    assert(copy@ =~= list@);
    copy
}

/// Lays out a network: a bootstrap node for each entry of
/// `bootstrap_setup`, a producer for each entry of `producers_setup` and a
/// validator for each entry of `validators_setup`, each in the place of its
/// entry. `boots` are the addresses under which the bootstrap nodes are
/// reached.
///
/// Every producer with a setup gets the test transactions it asks for, each
/// spending a coin of its own; the chain that every node is configured
/// with starts with all these coins, in the order of the producers and of
/// their transactions.
#[verifier::loop_isolation(false)]
pub fn make_nodes(
    bootstrap_setup: Vec<Option<BootstrapSetup>>,
    producers_setup: Vec<Option<ProducerSetup>>,
    validators_setup: Vec<Option<ValidatorSetup>>,
    boots: Vec<String>,
) -> (nodes: (Nodes, Vec<CoinConfig>))
    ensures
        nodes.0.bootstrap_nodes@.len() == bootstrap_setup@.len(),
        nodes.0.producers@.len() == producers_setup@.len(),
        nodes.0.validators@.len() == validators_setup@.len(),
        nodes.1@.len() == test_txs_before(producers_setup@, producers_setup@.len()),
        forall|i: int|
            0 <= i < bootstrap_setup@.len() ==> is_bootstrap_config(
                #[trigger] nodes.0.bootstrap_nodes@[i],
                bootstrap_setup@[i],
                i as nat,
                nodes.1@,
            ),
        forall|i: int|
            0 <= i < producers_setup@.len() ==> is_producer(
                #[trigger] nodes.0.producers@[i],
                producers_setup@[i],
                i as nat,
                nodes.1@,
                texts(boots@),
            ),
        forall|i: int|
            0 <= i < validators_setup@.len() ==> is_validator(
                #[trigger] nodes.0.validators@[i],
                validators_setup@[i],
                i as nat,
                nodes.1@,
                texts(boots@),
            ),
        forall|i: int|
            0 <= i < producers_setup@.len() ==> spend_coins_from(
                (#[trigger] nodes.0.producers@[i]).test_txs@,
                nodes.1@,
                test_txs_before(producers_setup@, i as nat),
            ),
{
    let mut rng = seeded_rng(NETWORK_SEED);
    let mut chain_config = ChainConfig::local_testnet();
    chain_config.max_storage_slots = TEST_MAX_STORAGE_SLOTS;

    // the test transactions of each producer, and the coins they spend
    let mut producer_txs: Vec<Vec<Transaction>> = Vec::new();
    let mut p: usize = 0;
    while p < producers_setup.len()
        invariant
            p <= producers_setup.len(),
            producer_txs@.len() == p,
            chain_config.max_storage_slots == TEST_MAX_STORAGE_SLOTS,
            chain_config.signing_key@ == Bytes32::zero_bytes(),
            chain_config.initial_coins@.len() == test_txs_before(producers_setup@, p as nat),
            forall|i: int|
                0 <= i < p ==> (#[trigger] producer_txs@[i])@.len() == (match producers_setup@[i] {
                    Some(s) => s.num_test_txs as nat,
                    None => 0,
                }),
            forall|i: int|
                0 <= i < p ==> spend_coins_from(
                    (#[trigger] producer_txs@[i])@,
                    chain_config.initial_coins@,
                    test_txs_before(producers_setup@, i as nat),
                ),
        decreases producers_setup.len() - p,
    {
        let wanted = match &producers_setup[p] {
            Some(setup) => setup.num_test_txs,
            None => 0,
        };
        let ghost coins_before = chain_config.initial_coins@;
        let ghost offset = test_txs_before(producers_setup@, p as nat);
        let mut txs: Vec<Transaction> = Vec::new();
        let mut made: usize = 0;
        while made < wanted
            invariant
                made <= wanted,
                txs@.len() == made,
                chain_config.max_storage_slots == TEST_MAX_STORAGE_SLOTS,
                chain_config.signing_key@ == Bytes32::zero_bytes(),
                chain_config.initial_coins@.len() == offset + made,
                chain_config.initial_coins@.subrange(0, offset as int) == coins_before,
                coins_before.len() == offset,
                forall|j: int|
                    0 <= j < made ==> spends(
                        #[trigger] txs@[j],
                        chain_config.initial_coins@[offset + j],
                    ),
            decreases wanted - made,
        {
            let (tx, coin) = make_test_tx(&mut rng);
            let ghost coins_so_far = chain_config.initial_coins@;
            let ghost txs_so_far = txs@;
            txs.push(tx);
            chain_config.initial_coins.push(coin);
            proof {
                assert(chain_config.initial_coins@.subrange(0, offset as int) =~= coins_before);
                assert forall|j: int| 0 <= j < made + 1 implies spends(
                    #[trigger] txs@[j],
                    chain_config.initial_coins@[offset + j],
                ) by {
                    if j < made {
                        assert(txs@[j] == txs_so_far[j]);
                        assert(chain_config.initial_coins@[offset + j] == coins_so_far[offset + j]);
                    }
                }
            }
            made += 1;
        }
        let ghost earlier = producer_txs@;
        producer_txs.push(txs);
        proof {
            assert forall|i: int| 0 <= i < p + 1 implies spend_coins_from(
                (#[trigger] producer_txs@[i])@,
                chain_config.initial_coins@,
                test_txs_before(producers_setup@, i as nat),
            ) by {
                if i < p {
                    assert(producer_txs@[i] == earlier[i]);
                    lemma_more_coins_change_nothing(
                        earlier[i]@,
                        coins_before,
                        chain_config.initial_coins@,
                        test_txs_before(producers_setup@, i as nat),
                    );
                }
            }
        }
        p += 1;
    }
    let ghost coins = chain_config.initial_coins@;

    let mut bootstrap_nodes: Vec<Config> = Vec::new();
    let mut setups = reversed(bootstrap_setup);
    while setups.len() > 0
        invariant
            bootstrap_nodes@.len() + setups@.len() == bootstrap_setup@.len(),
            chain_config.initial_coins@ == coins,
            chain_config.max_storage_slots == TEST_MAX_STORAGE_SLOTS,
            chain_config.signing_key@ == Bytes32::zero_bytes(),
            forall|k: int|
                0 <= k < setups@.len() ==> setups@[k] == bootstrap_setup@[bootstrap_setup@.len() - 1
                    - k],
            forall|i: int|
                0 <= i < bootstrap_nodes@.len() ==> is_bootstrap_config(
                    #[trigger] bootstrap_nodes@[i],
                    bootstrap_setup@[i],
                    i as nat,
                    coins,
                ),
        decreases setups@.len(),
    {
        let i = bootstrap_nodes.len();
        let boot = setups.pop().unwrap();
        assert(boot == bootstrap_setup@[i as int]);
        let ghost done = bootstrap_nodes@;
        let config = match boot {
            Some(setup) => {
                let mut config = make_config(node_name(setup.name, "b", i), chain_config.duplicate());
                config.chain_conf.signing_key = setup.pub_key;
                config
            },
            None => make_config(node_name(String::new(), "b", i), chain_config.duplicate()),
        };
        bootstrap_nodes.push(config);
        proof {
            assert forall|k: int| 0 <= k < bootstrap_nodes@.len() implies is_bootstrap_config(
                #[trigger] bootstrap_nodes@[k],
                bootstrap_setup@[k],
                k as nat,
                coins,
            ) by {
                if k < i {
                    assert(bootstrap_nodes@[k] == done[k]);
                }
            }
        }
    }

    let mut producers: Vec<Node> = Vec::new();
    let mut setups = reversed(producers_setup);
    let mut remaining_txs = reversed(producer_txs);
    let ghost all_txs = producer_txs@;
    while setups.len() > 0
        invariant
            producers@.len() + setups@.len() == producers_setup@.len(),
            remaining_txs@.len() == setups@.len(),
            all_txs.len() == producers_setup@.len(),
            chain_config.initial_coins@ == coins,
            chain_config.max_storage_slots == TEST_MAX_STORAGE_SLOTS,
            chain_config.signing_key@ == Bytes32::zero_bytes(),
            forall|k: int|
                0 <= k < setups@.len() ==> setups@[k] == producers_setup@[producers_setup@.len() - 1
                    - k] && remaining_txs@[k] == all_txs[producers_setup@.len() - 1 - k],
            forall|i: int|
                0 <= i < producers_setup@.len() ==> (#[trigger] all_txs[i])@.len() == (
                match producers_setup@[i] {
                    Some(s) => s.num_test_txs as nat,
                    None => 0,
                }),
            forall|i: int|
                0 <= i < producers@.len() ==> is_producer(
                    #[trigger] producers@[i],
                    producers_setup@[i],
                    i as nat,
                    coins,
                    texts(boots@),
                ) && producers@[i].test_txs == all_txs[i],
        decreases setups@.len(),
    {
        let i = producers.len();
        let setup = setups.pop().unwrap();
        let test_txs = remaining_txs.pop().unwrap();
        assert(setup == producers_setup@[i as int]);
        assert(test_txs == all_txs[i as int]);
        let ghost done = producers@;
        let config = match setup {
            Some(setup) => {
                let mut config = make_config(node_name(setup.name, "p", i), chain_config.duplicate());
                match address_of(&setup.secret) {
                    Some(address) => {
                        config.chain_conf.signing_key = address;
                    },
                    None => {},
                }
                config.consensus_key = Some(setup.secret);
                config
            },
            None => make_config(node_name(String::new(), "p", i), chain_config.duplicate()),
        };
        let mut config = config;
        config.block_production = Trigger::Instant;
        config.bootstrap_nodes = clone_strings(&boots);
        producers.push(Node { config, test_txs });
        proof {
            assert forall|k: int| 0 <= k < producers@.len() implies is_producer(
                #[trigger] producers@[k],
                producers_setup@[k],
                k as nat,
                coins,
                texts(boots@),
            ) && producers@[k].test_txs == all_txs[k] by {
                if k < i {
                    assert(producers@[k] == done[k]);
                }
            }
        }
    }

    let mut validators: Vec<Node> = Vec::new();
    let mut setups = reversed(validators_setup);
    while setups.len() > 0
        invariant
            validators@.len() + setups@.len() == validators_setup@.len(),
            chain_config.initial_coins@ == coins,
            chain_config.max_storage_slots == TEST_MAX_STORAGE_SLOTS,
            chain_config.signing_key@ == Bytes32::zero_bytes(),
            forall|k: int|
                0 <= k < setups@.len() ==> setups@[k] == validators_setup@[validators_setup@.len()
                    - 1 - k],
            forall|i: int|
                0 <= i < validators@.len() ==> is_validator(
                    #[trigger] validators@[i],
                    validators_setup@[i],
                    i as nat,
                    coins,
                    texts(boots@),
                ),
        decreases setups@.len(),
    {
        let i = validators.len();
        let setup = setups.pop().unwrap();
        assert(setup == validators_setup@[i as int]);
        let ghost done = validators@;
        let config = match setup {
            Some(setup) => {
                let mut config = make_config(node_name(setup.name, "v", i), chain_config.duplicate());
                config.chain_conf.signing_key = setup.pub_key;
                config
            },
            None => make_config(node_name(String::new(), "v", i), chain_config.duplicate()),
        };
        let mut config = config;
        config.block_production = Trigger::Never;
        config.bootstrap_nodes = clone_strings(&boots);
        validators.push(Node { config, test_txs: Vec::new() });
        proof {
            assert forall|k: int| 0 <= k < validators@.len() implies is_validator(
                #[trigger] validators@[k],
                validators_setup@[k],
                k as nat,
                coins,
                texts(boots@),
            ) by {
                if k < i {
                    assert(validators@[k] == done[k]);
                }
            }
        }
    }

    proof {
        assert forall|i: int| 0 <= i < producers_setup@.len() implies spend_coins_from(
            (#[trigger] producers@[i]).test_txs@,
            coins,
            test_txs_before(producers_setup@, i as nat),
        ) by {
            assert(producers@[i].test_txs == all_txs[i]);
        }
    }
    (Nodes { bootstrap_nodes, producers, validators }, chain_config.initial_coins)
}

/// The transactions that a node has stored.
///
/// Beside each method stands a relation that says what the method may
/// answer. A storage that does not say leaves the relation open.
pub trait TransactionStorage {
    /// Whether the storage, as it stands, may answer `found` when asked
    /// for the transaction with the identifier `id`.
    open spec fn finds(&self, id: Bytes32, found: bool) -> bool {
        true
    }

    /// Whether the storage, as it stands, may answer `count` for the
    /// number of stored scripts.
    open spec fn counts_scripts(&self, count: usize) -> bool {
        true
    }

    /// Looks a transaction up by its identifier.
    fn contains_key(&self, id: &Bytes32) -> (found: bool)
        ensures
            self.finds(*id, found),
    ;

    /// Counts the stored transactions that are scripts.
    fn script_count(&self) -> (count: usize)
        ensures
            self.counts_scripts(count),
    ;
}

/// Whether `found` is what the storage may answer for the expected
/// transactions, place by place.
pub open spec fn told_by<Db: TransactionStorage>(
    db: Db,
    txs: Seq<(Bytes32, Transaction)>,
    found: Seq<bool>,
) -> bool {
    &&& found.len() == txs.len()
    &&& forall|i: int| 0 <= i < txs.len() ==> db.finds(txs[i].0, #[trigger] found[i])
}

/// The identifiers of a list of expected transactions, in order.
pub open spec fn expected_ids(txs: Seq<(Bytes32, Transaction)>) -> Seq<Bytes32> {
    txs.map_values(|entry: (Bytes32, Transaction)| entry.0)
}

/// Every expected transaction stands under its own identifier.
pub open spec fn keyed_by_id(txs: Seq<(Bytes32, Transaction)>) -> bool {
    forall|i: int|
        0 <= i < txs.len() ==> (#[trigger] txs[i]).0@ == txs[i].1@.id(
            crate::blockchain::transaction::DEFAULT_CHAIN_ID,
        )
}

/// Of `ids`, in their order, those whose place in `found` says that they
/// were not found.
pub open spec fn spec_missing(ids: Seq<Bytes32>, found: Seq<bool>) -> Seq<Bytes32>
    decreases ids.len(),
{
    if ids.len() == 0 || found.len() != ids.len() {
        Seq::empty()
    } else if found.last() {
        spec_missing(ids.drop_last(), found.drop_last())
    } else {
        spec_missing(ids.drop_last(), found.drop_last()).push(ids.last())
    }
}

/// Gives, of the expected transactions in their order, the identifiers of
/// those that were not found, where `found` tells of each whether it was.
pub fn missing_txs(txs: &Vec<(Bytes32, Transaction)>, found: &Vec<bool>) -> (not_found: Vec<Bytes32>)
    requires
        found@.len() == txs@.len(),
    ensures
        not_found@ == spec_missing(expected_ids(txs@), found@),
{
    let ghost ids = expected_ids(txs@);
    let mut not_found: Vec<Bytes32> = Vec::new();
    let mut i: usize = 0;
    while i < txs.len()
        invariant
            i <= txs.len(),
            found@.len() == txs@.len(),
            ids == expected_ids(txs@),
            not_found@ == spec_missing(ids.subrange(0, i as int), found@.subrange(0, i as int)),
        decreases txs.len() - i,
    {
        proof {
            assert(ids.subrange(0, i + 1).drop_last() =~= ids.subrange(0, i as int));
            assert(found@.subrange(0, i + 1).drop_last() =~= found@.subrange(0, i as int));
        }
        if !found[i] {
            not_found.push(txs[i].0);
        }
        i += 1;
    }
    assert(ids.subrange(0, i as int) =~= ids);
    assert(found@.subrange(0, i as int) =~= found@);
    not_found
}

/// Looks each expected transaction up in the storage, in the order in
/// which they are expected, and tells of each whether it was found.
pub fn look_up<Db: TransactionStorage>(db: &Db, txs: &Vec<(Bytes32, Transaction)>) -> (found: Vec<
    bool,
>)
    ensures
        told_by(*db, txs@, found@),
{
    let mut found: Vec<bool> = Vec::new();
    let mut i: usize = 0;
    while i < txs.len()
        invariant
            i <= txs.len(),
            found@.len() == i,
            forall|j: int| 0 <= j < i ==> db.finds(txs@[j].0, #[trigger] found@[j]),
        decreases txs.len() - i,
    {
        found.push(db.contains_key(&txs[i].0));
        i += 1;
    }
    found
}

/// Looks the expected transactions up and gives the identifiers of those
/// that are not stored yet, in the order in which they are expected: the
/// storage is asked for each, and what is given is exactly the identifiers
/// that it answered not to hold.
pub fn not_found_txs<Db: TransactionStorage>(db: &Db, txs: &Vec<(Bytes32, Transaction)>) -> (not_found:
    Vec<Bytes32>)
    requires
        keyed_by_id(txs@),
    ensures
        exists|found: Seq<bool>|
            told_by(*db, txs@, found) && not_found@ == #[trigger] spec_missing(
                expected_ids(txs@),
                found,
            ),
{
    let found = look_up(db, txs);
    missing_txs(txs, &found)
}

/// Where a node stands on its way to hold the expected transactions.
#[derive(Clone, Copy, Debug, PartialEq, Eq, Structural)]
pub enum Consistency {
    /// The node holds every expected transaction, and no other script.
    Reached,
    /// Some expected transaction is not stored yet.
    Pending,
    /// The time to wait is over and some expected transaction is not
    /// stored.
    TimedOut,
    /// Every expected transaction is stored, and the number of stored
    /// scripts is another.
    Mismatch {
        /// The number of stored scripts.
        found: usize,
        /// The number of expected transactions.
        expected: usize,
    },
}

/// Where a node stands of which `missing` expected transactions are not
/// stored, which holds `scripts` scripts where `expected` are expected,
/// after waiting for `waited` of at most `limit`; without a limit it never
/// times out.
pub open spec fn spec_consistency(
    missing: nat,
    scripts: usize,
    expected: usize,
    waited: u64,
    limit: Option<u64>,
) -> Consistency {
    if missing > 0 {
        match limit {
            Some(most) => if waited >= most {
                Consistency::TimedOut
            } else {
                Consistency::Pending
            },
            None => Consistency::Pending,
        }
    } else if scripts == expected {
        Consistency::Reached
    } else {
        Consistency::Mismatch { found: scripts, expected }
    }
}

/// Tells where a node stands from what a look at its storage gave.
pub fn consistency_of(missing: usize, scripts: usize, expected: usize, waited: u64, limit: Option<u64>) -> (status:
    Consistency)
    ensures
        status == spec_consistency(missing as nat, scripts, expected, waited, limit),
{
    if missing > 0 {
        match limit {
            Some(most) => if waited >= most {
                Consistency::TimedOut
            } else {
                Consistency::Pending
            },
            None => Consistency::Pending,
        }
    } else if scripts == expected {
        Consistency::Reached
    } else {
        Consistency::Mismatch { found: scripts, expected }
    }
}

/// The time, in milliseconds, that a node is given to become consistent
/// where little is expected of it.
pub const TEN_SECONDS: u64 = 10_000;

/// The time, in milliseconds, that a node is given to become consistent
/// where more is expected of it.
pub const TWENTY_SECONDS: u64 = 20_000;

/// Why the test transactions of a node could not be fed to its pool.
#[derive(Debug, PartialEq, Eq)]
pub enum InsertError {
    /// The pool refused the transaction at this place.
    Refused(usize),
    /// The pool dropped other transactions for the one at this place.
    Replaced(usize),
}

/// What a pool did with a transaction that it took.
#[derive(Debug, PartialEq, Eq)]
pub struct InsertionResult {
    /// The transaction as the pool holds it.
    pub inserted: Transaction,
    /// The transactions that the pool dropped for it.
    pub removed: Vec<Transaction>,
}

/// A pool that takes transactions.
///
/// Beside the method stands a relation that says what the method may
/// answer and leave. A pool that does not say leaves the relation open.
pub trait TxInsertion: Sized {
    /// Whether the pool, handed `tx`, may answer `outcome` and be left as
    /// `after`.
    open spec fn takes(&self, after: &Self, tx: Transaction, outcome: Option<InsertionResult>) -> bool {
        true
    }

    /// Hands a transaction to the pool. None where the pool refuses it.
    fn insert(&mut self, tx: Transaction) -> (outcome: Option<InsertionResult>)
        ensures
            old(self).takes(final(self), tx, outcome),
    ;
}

/// Whether one of `entries` stands under the identifier `id`.
pub open spec fn has_id(entries: Seq<(Bytes32, Transaction)>, id: Bytes32) -> bool {
    exists|i: int| 0 <= i < entries.len() && (#[trigger] entries[i]).0 == id
}

/// No identifier stands twice among `entries`.
pub open spec fn distinct_ids(entries: Seq<(Bytes32, Transaction)>) -> bool {
    forall|i: int, j: int|
        0 <= i < j < entries.len() ==> (#[trigger] entries[i]).0 != (#[trigger] entries[j]).0
}

/// `entries` with `entry` put under its identifier: in the place of the
/// entry that stood under it, or, where none did, at the end.
pub open spec fn spec_put(entries: Seq<(Bytes32, Transaction)>, entry: (Bytes32, Transaction)) -> Seq<
    (Bytes32, Transaction),
> {
    if has_id(entries, entry.0) {
        entries.update(choose|i: int| 0 <= i < entries.len() && (#[trigger] entries[i]).0 == entry.0, entry)
    } else {
        entries.push(entry)
    }
}

/// Puts `entry` under its identifier.
pub fn put(entries: &mut Vec<(Bytes32, Transaction)>, entry: (Bytes32, Transaction))
    requires
        distinct_ids(old(entries)@),
    ensures
        final(entries)@ == spec_put(old(entries)@, entry),
        distinct_ids(final(entries)@),
        final(entries)@.len() <= old(entries)@.len() + 1,
        forall|k: int|
            0 <= k < final(entries)@.len() ==> #[trigger] final(entries)@[k] == entry || (k < old(
                entries,
            )@.len() && final(entries)@[k] == old(entries)@[k]),
{
    let mut i: usize = 0;
    while i < entries.len()
        invariant
            i <= entries.len(),
            entries@ == old(entries)@,
            distinct_ids(entries@),
            forall|j: int| 0 <= j < i ==> (#[trigger] entries@[j]).0 != entry.0,
        decreases entries.len() - i,
    {
        proof {
            Bytes32::lemma_view_injective(entries@[i as int].0, entry.0);
        }
        if entries[i].0 == entry.0 {
            proof {
                assert(has_id(entries@, entry.0));
                let at = choose|k: int|
                    0 <= k < entries@.len() && (#[trigger] entries@[k]).0 == entry.0;
                assert(at == i) by {
                    if at < i {
                        assert(entries@[at].0 != entry.0);
                    } else if at > i {
                        assert(entries@[i as int].0 != entries@[at].0);
                    }
                }
            }
            let ghost before = entries@;
            entries.set(i, entry);
            assert(entries@ =~= spec_put(before, entry));
            return ;
        }
        i += 1;
    }
    assert(!has_id(entries@, entry.0));
    entries.push(entry);
}

/// What the pool was handed and what it answered, one transaction after
/// the other: `pools` are the states that the pool went through, `handed`
/// the transactions that it was handed, each the same as the test
/// transaction in its place, and `outcomes` what it answered to each.
pub open spec fn fed<P: TxInsertion>(
    pools: Seq<P>,
    handed: Seq<Transaction>,
    outcomes: Seq<Option<InsertionResult>>,
    txs: Seq<Transaction>,
) -> bool {
    &&& pools.len() == handed.len() + 1
    &&& outcomes.len() == handed.len()
    &&& handed.len() <= txs.len()
    &&& forall|i: int| 0 <= i < handed.len() ==> (#[trigger] handed[i])@ == txs[i]@
    &&& forall|i: int|
        0 <= i < outcomes.len() ==> pools[i].takes(&pools[i + 1], handed[i], #[trigger] outcomes[i])
}

/// The identifier under which a transaction stands.
pub open spec fn id_of(tx: Transaction) -> Bytes32 {
    choose|id: Bytes32| #[trigger] id.view() == tx@.id(crate::blockchain::transaction::DEFAULT_CHAIN_ID)
}

/// The pool took the transaction and dropped no other for it.
pub open spec fn is_taken(outcome: Option<InsertionResult>) -> bool {
    outcome matches Some(result) && result.removed@.len() == 0
}

/// The entries that the first `count` answers of a pool give, each
/// transaction as the pool holds it put under its identifier.
pub open spec fn entries_of(outcomes: Seq<Option<InsertionResult>>, count: nat) -> Seq<
    (Bytes32, Transaction),
>
    decreases count,
{
    if count == 0 || count > outcomes.len() {
        Seq::empty()
    } else {
        let inserted = outcomes[count - 1]->Some_0.inserted;
        spec_put(
            entries_of(outcomes, (count - 1) as nat),
            (id_of(inserted), inserted),
        )
    }
}

/// What a look at the storage `db` leads to after `waited` of at most
/// `limit`: the storage is asked for each expected transaction, and,
/// where it answers to hold them all, for the number of its scripts; the
/// status is the one that `spec_consistency` tells for these answers.
pub open spec fn is_possible_status<Db: TransactionStorage>(
    status: Consistency,
    db: Db,
    txs: Seq<(Bytes32, Transaction)>,
    waited: u64,
    limit: Option<u64>,
) -> bool {
    exists|found: Seq<bool>, scripts: usize|
        {
            &&& told_by(db, txs, found)
            &&& spec_missing(expected_ids(txs), found).len() == 0 ==> db.counts_scripts(scripts)
            &&& status == #[trigger] spec_consistency(
                spec_missing(expected_ids(txs), found).len(),
                scripts,
                txs.len() as usize,
                waited,
                limit,
            )
        }
}

impl Node {
    /// Where the node stands on its way to hold `txs`, without a limit on
    /// the time to wait.
    pub fn consistency<Db: TransactionStorage>(&self, db: &Db, txs: &Vec<(Bytes32, Transaction)>) -> (status:
        Consistency)
        requires
            keyed_by_id(txs@),
        ensures
            is_possible_status(status, *db, txs@, 0, None),
    {
        check_consistency(db, txs, 0, None)
    }

    /// Where the node stands on its way to hold `txs` after `waited`
    /// milliseconds of at most ten seconds.
    pub fn consistency_10s<Db: TransactionStorage>(
        &self,
        db: &Db,
        txs: &Vec<(Bytes32, Transaction)>,
        waited: u64,
    ) -> (status: Consistency)
        requires
            keyed_by_id(txs@),
        ensures
            is_possible_status(status, *db, txs@, waited, Some(TEN_SECONDS)),
    {
        check_consistency(db, txs, waited, Some(TEN_SECONDS))
    }

    /// Where the node stands on its way to hold `txs` after `waited`
    /// milliseconds of at most twenty seconds.
    pub fn consistency_20s<Db: TransactionStorage>(
        &self,
        db: &Db,
        txs: &Vec<(Bytes32, Transaction)>,
        waited: u64,
    ) -> (status: Consistency)
        requires
            keyed_by_id(txs@),
        ensures
            is_possible_status(status, *db, txs@, waited, Some(TWENTY_SECONDS)),
    {
        check_consistency(db, txs, waited, Some(TWENTY_SECONDS))
    }

    /// What holds after the node's test transactions were fed to a pool
    /// that stood as `before` and is left as `after`, with the outcome
    /// `expected`. The pool was handed the transactions one after the
    /// other, each once, up to the first that it refused or dropped others
    /// for, and answered and was left as it may. On success every
    /// transaction was taken, and the entries are the transactions as the
    /// pool holds them, each under its identifier, a later one in the place
    /// of an earlier one with the same identifier. On failure the place of
    /// the transaction that failed is told.
    pub open spec fn fed_to<P: TxInsertion>(
        self,
        before: P,
        after: P,
        expected: Result<Vec<(Bytes32, Transaction)>, InsertError>,
    ) -> bool {
        exists|pools: Seq<P>, handed: Seq<Transaction>, outcomes: Seq<Option<InsertionResult>>|
            {
                &&& #[trigger] fed(pools, handed, outcomes, self.test_txs@)
                &&& pools.first() == before
                &&& pools.last() == after
                &&& match expected {
                    Ok(entries) => {
                        &&& handed.len() == self.test_txs@.len()
                        &&& forall|i: int|
                            0 <= i < outcomes.len() ==> is_taken(#[trigger] outcomes[i])
                        &&& entries@ == entries_of(outcomes, outcomes.len())
                    },
                    Err(failure) => {
                        let at = match failure {
                            InsertError::Refused(at) => at,
                            InsertError::Replaced(at) => at,
                        };
                        &&& handed.len() == at + 1
                        &&& forall|i: int| 0 <= i < at ==> is_taken(#[trigger] outcomes[i])
                        &&& match failure {
                            InsertError::Refused(_) => outcomes[at as int].is_none(),
                            InsertError::Replaced(_) => outcomes[at as int].is_some()
                                && !is_taken(outcomes[at as int]),
                        }
                    },
                }
            }
    }

    /// Feeds the node's test transactions to `pool`, in their order, and
    /// gives each transaction as the pool holds it, under its identifier.
    /// It stops at the first transaction that the pool refuses or drops
    /// others for.
    pub fn insert_txs<P: TxInsertion>(&self, pool: &mut P) -> (expected: Result<
        Vec<(Bytes32, Transaction)>,
        InsertError,
    >)
        ensures
            self.fed_to(*old(pool), *final(pool), expected),
            match expected {
                Ok(entries) => entries@.len() <= self.test_txs@.len() && keyed_by_id(entries@)
                    && distinct_ids(entries@),
                Err(InsertError::Refused(at)) | Err(InsertError::Replaced(at)) => at
                    < self.test_txs@.len(),
            },
    {
        let params = ConsensusParameters::default();
        let mut expected: Vec<(Bytes32, Transaction)> = Vec::new();
        let mut i: usize = 0;
        let ghost mut pools: Seq<P> = seq![*pool];
        let ghost mut handed: Seq<Transaction> = Seq::empty();
        let ghost mut outcomes: Seq<Option<InsertionResult>> = Seq::empty();
        while i < self.test_txs.len()
            invariant
                i <= self.test_txs.len(),
                expected@.len() <= i,
                keyed_by_id(expected@),
                distinct_ids(expected@),
                params == ConsensusParameters::standard(),
                fed(pools, handed, outcomes, self.test_txs@),
                handed.len() == i,
                pools.first() == *old(pool),
                pools.last() == *pool,
                forall|k: int| 0 <= k < outcomes.len() ==> is_taken(#[trigger] outcomes[k]),
                expected@ == entries_of(outcomes, outcomes.len()),
            decreases self.test_txs.len() - i,
        {
            let tx = self.test_txs[i].clone();
            let outcome = pool.insert(tx);
            proof {
                let earlier_pools = pools;
                let earlier_outcomes = outcomes;
                let earlier_handed = handed;
                pools = pools.push(*pool);
                handed = handed.push(tx);
                outcomes = outcomes.push(outcome);
                assert forall|k: int| 0 <= k < handed.len() implies (#[trigger] handed[k])@
                    == self.test_txs@[k]@ by {
                    if k < i {
                        assert(earlier_handed[k] == handed[k]);
                    }
                }
                assert forall|k: int| 0 <= k < i implies is_taken(#[trigger] outcomes[k]) by {
                    assert(earlier_outcomes[k] == outcomes[k]);
                }
                lemma_entries_of_prefix(outcomes, earlier_outcomes, i as nat);
                assert forall|k: int| 0 <= k < outcomes.len() implies pools[k].takes(
                    &pools[k + 1],
                    handed[k],
                    #[trigger] outcomes[k],
                ) by {
                    if k < i {
                        assert(earlier_outcomes[k] == outcomes[k]);
                        assert(earlier_pools[k] == pools[k]);
                        assert(earlier_pools[k + 1] == pools[k + 1]);
                    }
                }
            }
            assert(fed(pools, handed, outcomes, self.test_txs@));
            match outcome {
                None => {
                    assert(self.fed_to(*old(pool), *pool, Err(InsertError::Refused(i))));
                    return Err(InsertError::Refused(i));
                },
                Some(result) => {
                    match keyed_entry(result, &params) {
                        None => {
                            assert(self.fed_to(*old(pool), *pool, Err(InsertError::Replaced(i))));
                            return Err(InsertError::Replaced(i));
                        },
                        Some(entry) => {
                            let ghost before = expected@;
                            put(&mut expected, entry);
                            proof {
                                assert(entry.0.view() == result.inserted@.id(
                                    crate::blockchain::transaction::DEFAULT_CHAIN_ID,
                                ));
                                Bytes32::lemma_view_injective(entry.0, id_of(result.inserted));
                                assert(is_taken(outcomes[i as int]));
                            }
                        },
                    }
                },
            }
            i += 1;
        }
        assert(self.fed_to(*old(pool), *pool, Ok(expected)));
        Ok(expected)
    }
}

/// The entries that the first answers of a pool give do not depend on the
/// answers that follow.
pub proof fn lemma_entries_of_prefix(
    outcomes: Seq<Option<InsertionResult>>,
    shorter: Seq<Option<InsertionResult>>,
    count: nat,
)
    requires
        count <= shorter.len() <= outcomes.len(),
        forall|i: int| 0 <= i < count ==> shorter[i] == outcomes[i],
    ensures
        entries_of(outcomes, count) == entries_of(shorter, count),
    decreases count,
{
    if count > 0 {
        lemma_entries_of_prefix(outcomes, shorter, (count - 1) as nat);
    }
}

/// The transaction that a pool took, under its identifier; none where the
/// pool dropped others for it.
pub fn keyed_entry(result: InsertionResult, params: &ConsensusParameters) -> (entry: Option<
    (Bytes32, Transaction),
>)
    ensures
        entry.is_some() == (result.removed@.len() == 0),
        entry matches Some(e) ==> e.1 == result.inserted && e.0@ == e.1@.id(params.chain_id),
{
    if result.removed.len() > 0 {
        None
    } else {
        let id = result.inserted.id(params);
        Some((id, result.inserted))
    }
}

/// Tells whether every expected transaction stands under its own
/// identifier.
pub fn keys_are_ids(txs: &Vec<(Bytes32, Transaction)>) -> (keyed: bool)
    ensures
        keyed == keyed_by_id(txs@),
{
    let params = ConsensusParameters::default();
    let mut i: usize = 0;
    while i < txs.len()
        invariant
            i <= txs.len(),
            params == ConsensusParameters::standard(),
            forall|k: int|
                0 <= k < i ==> (#[trigger] txs@[k]).0@ == txs@[k].1@.id(
                    crate::blockchain::transaction::DEFAULT_CHAIN_ID,
                ),
        decreases txs.len() - i,
    {
        let id = txs[i].1.id(&params);
        proof {
            Bytes32::lemma_view_injective(id, txs@[i as int].0);
        }
        if id != txs[i].0 {
            return false;
        }
        i += 1;
    }
    true
}

/// Looks at the storage once and tells where the node stands; nothing
/// where an expected transaction does not stand under its own identifier.
pub fn checked_consistency<Db: TransactionStorage>(
    db: &Db,
    txs: &Vec<(Bytes32, Transaction)>,
    waited: u64,
    limit: Option<u64>,
) -> (status: Option<Consistency>)
    ensures
        status.is_some() == keyed_by_id(txs@),
        status matches Some(s) ==> is_possible_status(s, *db, txs@, waited, limit),
{
    if keys_are_ids(txs) {
        Some(check_consistency(db, txs, waited, limit))
    } else {
        None
    }
}

/// Looks at the storage once and tells where the node stands.
pub fn check_consistency<Db: TransactionStorage>(
    db: &Db,
    txs: &Vec<(Bytes32, Transaction)>,
    waited: u64,
    limit: Option<u64>,
) -> (status: Consistency)
    requires
        keyed_by_id(txs@),
    ensures
        is_possible_status(status, *db, txs@, waited, limit),
{
    let found = look_up(db, txs);
    let missing = missing_txs(txs, &found);
    if missing.len() > 0 {
        let status = consistency_of(missing.len(), 0, txs.len(), waited, limit);
        assert(status == spec_consistency(
            spec_missing(expected_ids(txs@), found@).len(),
            0,
            txs@.len() as usize,
            waited,
            limit,
        ));
        status
    } else {
        let scripts = db.script_count();
        let status = consistency_of(0, scripts, txs.len(), waited, limit);
        assert(status == spec_consistency(
            spec_missing(expected_ids(txs@), found@).len(),
            scripts,
            txs@.len() as usize,
            waited,
            limit,
        ));
        status
    }
}

/// Where nothing is expected the node is at its goal or holds scripts
/// that were not expected; where something is expected and every look-up
/// fails, the node is not at its goal.
pub proof fn lemma_consistency_follows_the_storage(
    txs: Seq<(Bytes32, Transaction)>,
    found: Seq<bool>,
    scripts: usize,
    waited: u64,
    limit: Option<u64>,
)
    requires
        found.len() == txs.len(),
        txs.len() <= usize::MAX,
    ensures
        ({
            let status = spec_consistency(
                spec_missing(expected_ids(txs), found).len(),
                scripts,
                txs.len() as usize,
                waited,
                limit,
            );
            &&& txs.len() == 0 ==> status is Reached || status is Mismatch
            &&& status is Reached ==> scripts == txs.len() && spec_missing(
                expected_ids(txs),
                found,
            ).len() == 0
            &&& status is TimedOut ==> limit is Some && waited >= limit->Some_0
            &&& (txs.len() > 0 && !found.last()) ==> !(status is Reached)
        }),
{
    lemma_missing_len(expected_ids(txs), found);
}

/// What is missing of a list is no longer than the list, and nothing is
/// missing where everything was found.
pub proof fn lemma_missing_len(ids: Seq<Bytes32>, found: Seq<bool>)
    ensures
        spec_missing(ids, found).len() <= ids.len(),
    decreases ids.len(),
{
    if ids.len() > 0 && found.len() == ids.len() {
        lemma_missing_len(ids.drop_last(), found.drop_last());
    }
}

/// Nodes that are reached by their name. As they are made from a list of
/// nodes, no two of them have one name.
#[derive(Debug, PartialEq, Eq)]
pub struct NamedNodes(pub Vec<Node>);

impl NamedNodes {
    /// No two of the nodes have one name.
    pub open spec fn distinct_names(nodes: Seq<Node>) -> bool {
        forall|i: int, j: int|
            0 <= i < j < nodes.len() ==> (#[trigger] nodes[i]).config.name@ != (
            #[trigger] nodes[j]).config.name@
    }

    /// `named` with `node` put under its name: in the place of the node
    /// that had the name, or, where none had it, at the end.
    pub open spec fn spec_put(named: Seq<Node>, node: Node) -> Seq<Node> {
        match Self::spec_position(named, node.config.name@) {
            Some(at) => named.update(at, node),
            None => named.push(node),
        }
    }

    /// The nodes of a list, each put under its name in the order of the
    /// list: of the nodes with one name the last one stays.
    pub open spec fn spec_named(nodes: Seq<Node>) -> Seq<Node>
        decreases nodes.len(),
    {
        if nodes.len() == 0 {
            Seq::empty()
        } else {
            Self::spec_put(Self::spec_named(nodes.drop_last()), nodes.last())
        }
    }

    /// The node that answers to `name`, if there is one.
    pub open spec fn spec_get(nodes: Seq<Node>, name: Seq<char>) -> Option<Node> {
        match Self::spec_position(nodes, name) {
            Some(at) => Some(nodes[at]),
            None => None,
        }
    }

    /// The place of the node that answers to `name`: the last one of that
    /// name; none where no node has it.
    pub open spec fn spec_position(nodes: Seq<Node>, name: Seq<char>) -> Option<int>
        decreases nodes.len(),
    {
        if nodes.len() == 0 {
            None
        } else if nodes.last().config.name@ == name {
            Some(nodes.len() - 1)
        } else {
            Self::spec_position(nodes.drop_last(), name)
        }
    }

    /// The place of the node that answers to `name`.
    pub fn position(&self, name: &str) -> (place: Option<usize>)
        ensures
            match place {
                Some(at) => Self::spec_position(self.0@, name@) == Some(at as int) && at
                    < self.0@.len(),
                None => Self::spec_position(self.0@, name@).is_none(),
            },
    {
        let wanted = String::from_str(name);
        let mut i: usize = self.0.len();
        assert(self.0@.subrange(0, i as int) =~= self.0@);
        while i > 0
            invariant
                i <= self.0.len(),
                wanted@ == name@,
                Self::spec_position(self.0@, name@) == Self::spec_position(
                    self.0@.subrange(0, i as int),
                    name@,
                ),
            decreases i,
        {
            proof {
                assert(self.0@.subrange(0, i as int).drop_last() =~= self.0@.subrange(0, i - 1));
            }
            if self.0[i - 1].config.name == wanted {
                return Some(i - 1);
            }
            i -= 1;
        }
        None
    }

    /// The node that answers to `name`.
    pub fn get(&self, name: &str) -> (node: Option<&Node>)
        ensures
            match Self::spec_position(self.0@, name@) {
                Some(at) => match node {
                    Some(found) => *found == self.0@[at],
                    None => false,
                },
                None => node.is_none(),
            },
    {
        match self.position(name) {
            Some(at) => Some(&self.0[at]),
            None => None,
        }
    }
}

impl From<Vec<Node>> for NamedNodes {
    /// The nodes, each reached by the name in its settings. Of the nodes
    /// with one name the last one stays, so that no name stands twice.
    fn from(nodes: Vec<Node>) -> (named: Self)
        ensures
            named.0@ == NamedNodes::spec_named(nodes@),
            NamedNodes::distinct_names(named.0@),
    {
        let ghost all = nodes@;
        let mut rest = reversed(nodes);
        let mut named = NamedNodes(Vec::new());
        let ghost mut done: int = 0;
        proof {
            assert(all.subrange(0, 0) =~= Seq::<Node>::empty());
        }
        while rest.len() > 0
            invariant
                0 <= done,
                done + rest@.len() == all.len(),
                forall|j: int| 0 <= j < rest@.len() ==> rest@[j] == all[all.len() - 1 - j],
                named.0@ == NamedNodes::spec_named(all.subrange(0, done)),
                NamedNodes::distinct_names(named.0@),
            decreases rest@.len(),
        {
            let node = rest.pop().unwrap();
            proof {
                assert(node == all[done]);
                assert(all.subrange(0, done + 1).drop_last() =~= all.subrange(0, done));
                lemma_position_is_last_of_name(named.0@, node.config.name@);
                done = done + 1;
            }
            match named.position(node.config.name.as_str()) {
                Some(at) => {
                    named.0.set(at, node);
                },
                None => {
                    named.0.push(node);
                },
            }
        }
        assert(all.subrange(0, done) =~= all);
        named
    }
}

impl vstd::std_specs::convert::FromSpecImpl<Vec<Node>> for NamedNodes {
    open spec fn obeys_from_spec() -> bool {
        false
    }

    open spec fn from_spec(nodes: Vec<Node>) -> Self {
        arbitrary()
    }
}

/// The node that answers to a name among named nodes is the last node of
/// that name in the list that they were made from.
pub proof fn lemma_named_nodes_answer_as_the_list(nodes: Seq<Node>, name: Seq<char>)
    ensures
        NamedNodes::distinct_names(NamedNodes::spec_named(nodes)),
        NamedNodes::spec_get(NamedNodes::spec_named(nodes), name) == NamedNodes::spec_get(
            nodes,
            name,
        ),
    decreases nodes.len(),
{
    if nodes.len() > 0 {
        let earlier = NamedNodes::spec_named(nodes.drop_last());
        let node = nodes.last();
        let named = NamedNodes::spec_named(nodes);
        lemma_named_nodes_answer_as_the_list(nodes.drop_last(), name);
        lemma_position_is_last_of_name(earlier, node.config.name@);
        lemma_position_is_last_of_name(earlier, name);
        lemma_position_is_last_of_name(named, name);
        lemma_position_is_last_of_name(nodes.drop_last(), name);
        match NamedNodes::spec_position(earlier, node.config.name@) {
            Some(at) => {
                assert(named == earlier.update(at, node));
            },
            None => {
                assert(named == earlier.push(node));
            },
        }
        if node.config.name@ == name {
            match NamedNodes::spec_position(named, name) {
                Some(found) => {
                    assert(named[found].config.name@ == name);
                },
                None => {
                    let at = match NamedNodes::spec_position(earlier, name) {
                        Some(at) => at,
                        None => earlier.len() as int,
                    };
                    assert(named[at].config.name@ == name);
                },
            }
        } else {
            match NamedNodes::spec_position(named, name) {
                Some(found) => {
                    assert(named[found] != node);
                    assert(earlier[found] == named[found]);
                    match NamedNodes::spec_position(earlier, name) {
                        Some(before) => {
                            assert(named[before] == earlier[before]);
                        },
                        None => {},
                    }
                },
                None => {
                    match NamedNodes::spec_position(earlier, name) {
                        Some(before) => {
                            assert(named[before] == earlier[before]);
                        },
                        None => {},
                    }
                },
            }
        }
    }
}

/// A node that was found by its name has that name, and no later node has
/// it.
pub proof fn lemma_position_is_last_of_name(nodes: Seq<Node>, name: Seq<char>)
    ensures
        match NamedNodes::spec_position(nodes, name) {
            Some(at) => 0 <= at < nodes.len() && nodes[at].config.name@ == name && forall|k: int|
                at < k < nodes.len() ==> (#[trigger] nodes[k]).config.name@ != name,
            None => forall|k: int| 0 <= k < nodes.len() ==> (#[trigger] nodes[k]).config.name@ != name,
        },
    decreases nodes.len(),
{
    if nodes.len() > 0 {
        if nodes.last().config.name@ != name {
            lemma_position_is_last_of_name(nodes.drop_last(), name);
            match NamedNodes::spec_position(nodes.drop_last(), name) {
                Some(at) => {
                    assert(nodes.drop_last()[at] == nodes[at]);
                    assert forall|k: int| at < k < nodes.len() implies (
                    #[trigger] nodes[k]).config.name@ != name by {
                        if k < nodes.len() - 1 {
                            assert(nodes.drop_last()[k] == nodes[k]);
                        }
                    }
                },
                None => {
                    assert forall|k: int| 0 <= k < nodes.len() implies (
                    #[trigger] nodes[k]).config.name@ != name by {
                        if k < nodes.len() - 1 {
                            assert(nodes.drop_last()[k] == nodes[k]);
                        }
                    }
                },
            }
        }
    }
}

} // verus!
