//! What the library takes from other crates: digests, signatures, Merkle
//! roots and the canonical form of a transaction from the Fuel VM crates,
//! random draws from `rand`, hex text from `hex` and the identifier scalar
//! of `cynic`. What this file says of them is believed, not proved.

use fuel_tx::policies::Policies;
use fuel_tx::{Input, UniqueIdentifier, UtxoId};
use fuel_types::canonical::Serialize;
use fuel_types::ChainId;
use vstd::prelude::*;
use crate::blockchain::primitives::Bytes32;
use crate::blockchain::transaction::{CoinInput, Transaction, TransactionView};

verus! {

/// The SHA-256 digest of a byte string.
pub uninterp spec fn sha256(data: Seq<u8>) -> Seq<u8>;

/// Calls `fuel_crypto::Hasher::hash`, which feeds the bytes to SHA-256 and
/// returns the 32-byte digest. Claimed: the result is a function of the
/// bytes alone.
#[verifier::external_body]
pub(crate) fn hash(data: &[u8]) -> (digest: Bytes32)
    ensures
        digest@ == sha256(data@),
{
    Bytes32 { bytes: fuel_crypto::Hasher::hash(data).into() }
}

/// The compact signature that a secret key gives over a 32-byte message on
/// the secp256k1 curve; none where the bytes are no secret key.
pub uninterp spec fn signature_of(secret: Seq<u8>, message: Seq<u8>) -> Option<Seq<u8>>;

/// Reads the secret key with `fuel_crypto::SecretKey::try_from`, which
/// refuses bytes that are no scalar of the curve, and signs the message
/// with `fuel_crypto::Signature::sign`, whose nonce is derived from key and
/// message. Claimed: whether a signature comes back, and which, is a
/// function of the two byte strings alone; and one comes back exactly
/// where the bytes are a secret key, which is where they have a public key.
#[verifier::external_body]
pub(crate) fn sign(secret: &[u8; 32], message: &[u8; 32]) -> (signature: Option<[u8; 64]>)
    ensures
        signature.is_some() == signature_of(secret@, message@).is_some(),
        signature.is_some() == public_key_of(secret@).is_some(),
        signature matches Some(s) ==> Some(s@) == signature_of(secret@, message@),
{
    let message = fuel_crypto::Message::from_bytes(*message);
    match fuel_crypto::SecretKey::try_from(&secret[..]) {
        Ok(key) => Some(fuel_crypto::Signature::sign(&key, &message).into()),
        Err(_) => None,
    }
}

/// The public key that a compact signature over a 32-byte message recovers
/// to on the secp256k1 curve, where it recovers to one.
pub uninterp spec fn recovered_public_key(signature: Seq<u8>, message: Seq<u8>) -> Option<Seq<u8>>;

/// Calls `fuel_crypto::Signature::recover` on the signature and the message
/// with these bytes. Claimed: whether a key comes back, and which, is a
/// function of the two byte strings alone.
#[verifier::external_body]
pub(crate) fn recover(signature: &[u8; 64], message: &[u8; 32]) -> (key: Option<[u8; 64]>)
    ensures
        key.is_some() == recovered_public_key(signature@, message@).is_some(),
        key matches Some(k) ==> Some(k@) == recovered_public_key(signature@, message@),
{
    let signature = fuel_crypto::Signature::from_bytes(*signature);
    let message = fuel_crypto::Message::from_bytes(*message);
    match signature.recover(&message) {
        Ok(key) => Some(key.into()),
        Err(_) => None,
    }
}

/// The public key of a secret key of the secp256k1 curve; none where the
/// bytes are no secret key.
pub uninterp spec fn public_key_of(secret: Seq<u8>) -> Option<Seq<u8>>;

/// Reads the secret key with `fuel_crypto::SecretKey::try_from` and asks
/// `fuel_crypto::SecretKey::public_key` for its public key. Claimed:
/// whether a key comes back, and which, is a function of the bytes alone.
#[verifier::external_body]
pub(crate) fn public_key(secret: &[u8; 32]) -> (key: Option<[u8; 64]>)
    ensures
        key.is_some() == public_key_of(secret@).is_some(),
        key matches Some(k) ==> Some(k@) == public_key_of(secret@),
{
    match fuel_crypto::SecretKey::try_from(&secret[..]) {
        Ok(key) => Some(key.public_key().into()),
        Err(_) => None,
    }
}

/// The canonical serialization of a script transaction without policies
/// and outputs that has the given gas limit, script, script data, signed
/// coin inputs and witnesses.
pub uninterp spec fn canonical_bytes(tx: TransactionView) -> Seq<u8>;

/// Builds the transaction with `fuel_tx::Transaction::script`, its inputs
/// with `fuel_tx::Input::coin_signed`, and serializes it with
/// `fuel_types::canonical::Serialize::to_bytes`, which panics where a list
/// holds more than 100 * 2^20 elements; the bound keeps within that.
/// Claimed: the bytes are a function of the transaction's fields alone.
#[verifier::external_body]
pub(crate) fn script_to_bytes(tx: &Transaction) -> (bytes: Vec<u8>)
    requires
        tx@.is_encodable(),
    ensures
        bytes@ == canonical_bytes(tx@),
{
    let coin = |i: &CoinInput| {
        let utxo = UtxoId::new(i.utxo_tx_id.bytes.into(), i.utxo_output_index);
        let (asset, pointer) = (Default::default(), Default::default());
        Input::coin_signed(utxo, i.owner.bytes.into(), i.amount, asset, pointer, i.witness_index)
    };
    let inputs = tx.inputs.iter().map(coin).collect();
    let witnesses = tx.witnesses.iter().map(|w| w.clone().into()).collect();
    let (script, data) = (tx.script.clone(), tx.script_data.clone());
    let outputs = Vec::new();
    fuel_tx::Transaction::script(tx.gas_limit, script, data, Policies::new(), inputs, outputs, witnesses).to_bytes()
}

/// The identifier that the chain `chain_id` gives to the script
/// transaction with the given fields. The crate computes it over the
/// transaction without its witnesses, so it is named over a transaction
/// without witnesses.
pub uninterp spec fn transaction_id(chain_id: u64, tx: TransactionView) -> Seq<u8>;

/// Builds the transaction without its witnesses with
/// `fuel_tx::Transaction::script`, its inputs with
/// `fuel_tx::Input::coin_signed`, and asks `fuel_tx::UniqueIdentifier::id`
/// for its identifier on the given chain, which writes the canonical form
/// and so panics where a list holds more than 100 * 2^20 elements; the
/// bound keeps within that. Claimed: the identifier is a function of the
/// chain and of the transaction's other fields alone.
#[verifier::external_body]
pub(crate) fn script_id(chain_id: u64, tx: &Transaction) -> (id: Bytes32)
    requires
        tx@.is_encodable(),
    ensures
        id@ == transaction_id(chain_id, tx@.without_witnesses()),
{
    let coin = |i: &CoinInput| {
        let utxo = UtxoId::new(i.utxo_tx_id.bytes.into(), i.utxo_output_index);
        let (asset, pointer) = (Default::default(), Default::default());
        Input::coin_signed(utxo, i.owner.bytes.into(), i.amount, asset, pointer, i.witness_index)
    };
    let inputs = tx.inputs.iter().map(coin).collect();
    let (script, data) = (tx.script.clone(), tx.script_data.clone());
    let (outputs, witnesses) = (Vec::new(), Vec::new());
    let tx = fuel_tx::Transaction::script(tx.gas_limit, script, data, Policies::new(), inputs, outputs, witnesses);
    Bytes32 { bytes: tx.id(&ChainId::new(chain_id)).into() }
}

/// The `ID` scalar of the `cynic` crate.
#[verifier::external_type_specification]
#[verifier::external_body]
pub struct ExId(cynic::Id);

/// The error of the `hex` crate's decoder.
#[verifier::external_type_specification]
#[verifier::external_body]
pub struct ExFromHexError(hex::FromHexError);

/// The value of a hex digit, upper or lower case; none for any other byte.
pub open spec fn hex_digit(c: u8) -> Option<u8> {
    if 0x30 <= c <= 0x39 {
        Some((c - 0x30) as u8)
    } else if 0x41 <= c <= 0x46 {
        Some((c - 0x41 + 10) as u8)
    } else if 0x61 <= c <= 0x66 {
        Some((c - 0x61 + 10) as u8)
    } else {
        None
    }
}

/// The bytes that hex text stands for, two digits to the byte, the high
/// digit first; none where the number of digits is odd or a byte is no hex
/// digit.
pub open spec fn hex_decoded(text: Seq<u8>) -> Option<Seq<u8>> {
    if text.len() % 2 != 0 || exists|i: int| 0 <= i < text.len() && hex_digit(#[trigger] text[i]).is_none() {
        None
    } else {
        Some(
            Seq::new(
                text.len() / 2,
                |i: int| (hex_digit(text[2 * i]).unwrap() * 16 + hex_digit(text[2 * i + 1]).unwrap()) as u8,
            ),
        )
    }
}

/// Calls `hex::decode`, which reads two hex digits to the byte, upper or
/// lower case, and fails on an odd number of digits and on any other byte.
#[verifier::external_body]
pub(crate) fn decode_hex(text: &[u8]) -> (bytes: Result<Vec<u8>, hex::FromHexError>)
    ensures
        bytes.is_ok() == hex_decoded(text@).is_some(),
        bytes matches Ok(b) ==> Some(b@) == hex_decoded(text@),
{
    hex::decode(text)
}

/// Calls `to_string` on the error of the `hex` crate's decoder, which
/// writes what went wrong. Nothing is claimed of the text.
#[verifier::external_body]
pub(crate) fn hex_error_text(error: &hex::FromHexError) -> (text: String) {
    error.to_string()
}

/// The error of the standard library's input and output.
#[verifier::external_type_specification]
#[verifier::external_body]
pub struct ExIoError(std::io::Error);

/// Calls `to_string` on an error of the standard library's input and
/// output, which writes what went wrong. Nothing is claimed of the text.
#[verifier::external_body]
pub(crate) fn io_error_text(error: &std::io::Error) -> (text: String) {
    error.to_string()
}

/// The standard generator of the `rand` crate.
#[verifier::external_type_specification]
#[verifier::external_body]
pub struct ExStdRng(rand::rngs::StdRng);

/// Calls `rand::SeedableRng::seed_from_u64`, which makes a generator from
/// the seed. Nothing is claimed of what it will draw.
#[verifier::external_body]
pub(crate) fn seeded_rng(seed: u64) -> (rng: rand::rngs::StdRng) {
    rand::SeedableRng::seed_from_u64(seed)
}

/// Calls `rand::Rng::gen_range` on the range from `low` up to `high`, which
/// draws a value of that range and panics where the range is empty.
#[verifier::external_body]
pub(crate) fn draw_in_range(rng: &mut rand::rngs::StdRng, low: u64, high: u64) -> (value: u64)
    requires
        low < high,
    ensures
        low <= value < high,
{
    rand::Rng::gen_range(rng, low..high)
}

/// Calls `fuel_crypto::SecretKey::random`, which draws a secret key of the
/// curve. Claimed: what comes back is a secret key, so it has a public
/// key. Nothing is claimed of which key is drawn.
#[verifier::external_body]
pub(crate) fn draw_secret_key(rng: &mut rand::rngs::StdRng) -> (secret: [u8; 32])
    ensures
        public_key_of(secret@).is_some(),
{
    *fuel_crypto::SecretKey::random(rng)
}

/// Calls `rand::RngCore::fill_bytes` on thirty-two bytes. Nothing is
/// claimed of what is drawn.
#[verifier::external_body]
pub(crate) fn draw_bytes32(rng: &mut rand::rngs::StdRng) -> (bytes: [u8; 32]) {
    let mut bytes = [0u8; 32];
    rand::RngCore::fill_bytes(rng, &mut bytes);
    bytes
}

/// The in-memory binary Merkle tree of `fuel-merkle`.
#[verifier::external_type_specification]
#[verifier::external_body]
pub struct ExMerkleTree(fuel_merkle::binary::in_memory::MerkleTree);

/// The leaves that were pushed to a tree, oldest first.
pub uninterp spec fn merkle_leaves(tree: fuel_merkle::binary::in_memory::MerkleTree) -> Seq<
    Seq<u8>,
>;

/// The root of the binary Merkle tree over the given leaves.
pub uninterp spec fn merkle_root(leaves: Seq<Seq<u8>>) -> Seq<u8>;

/// The number of leaves below which a push is known to succeed.
pub const MERKLE_LEAF_LIMIT: u64 = 0x1_0000_0000;

/// Calls `MerkleTree::new`, which makes a tree without leaves.
#[verifier::external_body]
pub(crate) fn merkle_tree_new() -> (tree: fuel_merkle::binary::in_memory::MerkleTree)
    ensures
        merkle_leaves(tree) == Seq::<Seq<u8>>::empty(),
{
    fuel_merkle::binary::in_memory::MerkleTree::new()
}

/// Calls `MerkleTree::push`, which appends one leaf. The crate drops the
/// leaf where the tree has grown past what its positions can number; the
/// bound keeps far below that.
#[verifier::external_body]
pub(crate) fn merkle_tree_push(tree: &mut fuel_merkle::binary::in_memory::MerkleTree, data: &[u8])
    requires
        merkle_leaves(*old(tree)).len() < MERKLE_LEAF_LIMIT,
    ensures
        merkle_leaves(*final(tree)) == merkle_leaves(*old(tree)).push(data@),
{
    tree.push(data)
}

/// Calls `MerkleTree::root`. Claimed: the root is a function of the leaves
/// pushed so far, in their order.
#[verifier::external_body]
pub(crate) fn merkle_tree_root(tree: &fuel_merkle::binary::in_memory::MerkleTree) -> (root: Bytes32)
    ensures
        root@ == merkle_root(merkle_leaves(*tree)),
{
    Bytes32 { bytes: tree.root() }
}

} // verus!
