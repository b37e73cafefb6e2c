//! Transactions as the block logic sees them.

use vstd::prelude::*;
use crate::blockchain::primitives::{Bytes32, TxId};
use crate::outside::{canonical_bytes, script_id, script_to_bytes, transaction_id};

verus! {

/// The chain identifier of the default parameters.
pub const DEFAULT_CHAIN_ID: u64 = 0;

/// The gas ceiling for one transaction under the default parameters.
pub const DEFAULT_MAX_GAS_PER_TX: u64 = 100_000_000;

/// The most elements that a list of a transaction may hold, and the most
/// bytes that a script, its data or a witness may hold: above it the
/// canonical form cannot be written.
pub const ENCODING_LIMIT: usize = 104_857_600;

/// The consensus parameters that block production reads.
#[derive(Clone, Copy, Debug, PartialEq, Eq, Structural)]
pub struct ConsensusParameters {
    /// Identifies the chain; it enters every transaction identifier.
    pub chain_id: u64,
    /// The most gas that one transaction may ask for.
    pub max_gas_per_tx: u64,
}

impl ConsensusParameters {
    /// The default parameters.
    pub open spec fn standard() -> ConsensusParameters {
        ConsensusParameters { chain_id: DEFAULT_CHAIN_ID, max_gas_per_tx: DEFAULT_MAX_GAS_PER_TX }
    }
}

impl Default for ConsensusParameters {
    fn default() -> (r: Self)
        ensures
            r == ConsensusParameters::standard(),
    {
        ConsensusParameters { chain_id: DEFAULT_CHAIN_ID, max_gas_per_tx: DEFAULT_MAX_GAS_PER_TX }
    }
}

/// A coin that a transaction spends, with the place of the witness that
/// signs for it.
#[derive(Clone, Copy, Debug, PartialEq, Eq)]
pub struct CoinInput {
    /// The transaction that created the coin.
    pub utxo_tx_id: Bytes32,
    /// The place of the coin among that transaction's outputs.
    pub utxo_output_index: u16,
    /// The owner of the coin.
    pub owner: Bytes32,
    /// The amount of the coin.
    pub amount: u64,
    /// The place of the owner's signature among the witnesses.
    pub witness_index: u16,
}

/// A script transaction: its script with the gas it may use, the coins it
/// spends and the witnesses that sign for them. It has no policies and no
/// outputs.
#[derive(Debug, PartialEq, Eq)]
pub struct Transaction {
    pub(crate) gas_limit: u64,
    pub(crate) script: Vec<u8>,
    pub(crate) script_data: Vec<u8>,
    pub(crate) inputs: Vec<CoinInput>,
    pub(crate) witnesses: Vec<Vec<u8>>,
}

/// What a transaction is, as mathematics.
pub struct TransactionView {
    pub gas_limit: u64,
    pub script: Seq<u8>,
    pub script_data: Seq<u8>,
    pub inputs: Seq<CoinInput>,
    pub witnesses: Seq<Seq<u8>>,
}

impl TransactionView {
    /// No list of the transaction is longer than the canonical form can
    /// hold.
    pub open spec fn is_encodable(self) -> bool {
        &&& self.script.len() <= ENCODING_LIMIT
        &&& self.script_data.len() <= ENCODING_LIMIT
        &&& self.inputs.len() <= ENCODING_LIMIT
        &&& self.witnesses.len() <= ENCODING_LIMIT
        &&& forall|i: int|
            0 <= i < self.witnesses.len() ==> (#[trigger] self.witnesses[i]).len()
                <= ENCODING_LIMIT
    }

    /// The transaction without its witnesses.
    pub open spec fn without_witnesses(self) -> TransactionView {
        TransactionView { witnesses: Seq::empty(), ..self }
    }

    /// The identifier of the transaction on the chain `chain_id`. The
    /// witnesses have no part in it.
    pub open spec fn id(self, chain_id: u64) -> Seq<u8> {
        transaction_id(chain_id, self.without_witnesses())
    }

    /// The canonical serialization of the transaction.
    pub open spec fn bytes(self) -> Seq<u8> {
        canonical_bytes(self)
    }
}

/// The byte strings of a list of witnesses.
pub open spec fn witness_views(witnesses: Seq<Vec<u8>>) -> Seq<Seq<u8>> {
    witnesses.map_values(|w: Vec<u8>| w@)
}

impl View for Transaction {
    type V = TransactionView;

    closed spec fn view(&self) -> TransactionView {
        TransactionView {
            gas_limit: self.gas_limit,
            script: self.script@,
            script_data: self.script_data@,
            inputs: self.inputs@,
            witnesses: witness_views(self.witnesses@),
        }
    }
}

/// Copies a list of byte strings.
fn clone_witnesses(witnesses: &Vec<Vec<u8>>) -> (copy: Vec<Vec<u8>>)
    ensures
        witness_views(copy@) == witness_views(witnesses@),
{
    let mut copy: Vec<Vec<u8>> = Vec::new();
    let mut i: usize = 0;
    while i < witnesses.len()
        invariant
            i <= witnesses.len(),
            copy@.len() == i,
            forall|j: int| 0 <= j < i ==> copy@[j]@ == witnesses@[j]@,
        decreases witnesses.len() - i,
    {
        copy.push(witnesses[i].clone());
        i += 1;
    }
    assert(witness_views(copy@) =~= witness_views(witnesses@));
    copy
}

/// Copies a list of coin inputs.
fn clone_inputs(inputs: &Vec<CoinInput>) -> (copy: Vec<CoinInput>)
    ensures
        copy@ == inputs@,
{
    let mut copy: Vec<CoinInput> = Vec::new();
    let mut i: usize = 0;
    while i < inputs.len()
        invariant
            i <= inputs.len(),
            copy@ == inputs@.subrange(0, i as int),
        decreases inputs.len() - i,
    {
        copy.push(inputs[i]);
        assert(copy@ =~= inputs@.subrange(0, i + 1));
        i += 1;
    }
    assert(copy@ =~= inputs@);
    copy
}

impl Clone for Transaction {
    fn clone(&self) -> (r: Self)
        ensures
            r@ == self@,
    {
        proof {
            use_type_invariant(self);
        }
        Transaction {
            gas_limit: self.gas_limit,
            script: self.script.clone(),
            script_data: self.script_data.clone(),
            inputs: clone_inputs(&self.inputs),
            witnesses: clone_witnesses(&self.witnesses),
        }
    }
}

/// Whether no witness of the list is longer than the canonical form can
/// hold.
fn witnesses_fit(witnesses: &Vec<Vec<u8>>) -> (fit: bool)
    ensures
        fit == (forall|i: int|
            0 <= i < witnesses@.len() ==> (#[trigger] witness_views(witnesses@)[i]).len()
                <= ENCODING_LIMIT),
{
    let mut i: usize = 0;
    while i < witnesses.len()
        invariant
            i <= witnesses.len(),
            forall|j: int|
                0 <= j < i ==> (#[trigger] witness_views(witnesses@)[j]).len() <= ENCODING_LIMIT,
        decreases witnesses.len() - i,
    {
        if witnesses[i].len() > ENCODING_LIMIT {
            assert(witness_views(witnesses@)[i as int].len() > ENCODING_LIMIT);
            return false;
        }
        i += 1;
    }
    true
}

impl Transaction {
    /// Every transaction can be written in the canonical form.
    #[verifier::type_invariant]
    closed spec fn fits(self) -> bool {
        self@.is_encodable()
    }

    /// A script transaction with the given fields, where no list of them
    /// is longer than the canonical form can hold; none where one is.
    pub fn try_script_with_inputs(
        gas_limit: u64,
        script: Vec<u8>,
        script_data: Vec<u8>,
        inputs: Vec<CoinInput>,
        witnesses: Vec<Vec<u8>>,
    ) -> (tx: Option<Self>)
        ensures
            tx.is_some() == (TransactionView {
                gas_limit,
                script: script@,
                script_data: script_data@,
                inputs: inputs@,
                witnesses: witness_views(witnesses@),
            }).is_encodable(),
            tx matches Some(t) ==> t@ == (TransactionView {
                gas_limit,
                script: script@,
                script_data: script_data@,
                inputs: inputs@,
                witnesses: witness_views(witnesses@),
            }),
    {
        if script.len() > ENCODING_LIMIT || script_data.len() > ENCODING_LIMIT || inputs.len()
            > ENCODING_LIMIT || witnesses.len() > ENCODING_LIMIT || !witnesses_fit(&witnesses) {
            None
        } else {
            Some(Transaction { gas_limit, script, script_data, inputs, witnesses })
        }
    }

    /// A script transaction with the given gas limit, script and script
    /// data, which spends nothing.
    pub fn script(gas_limit: u64, script: Vec<u8>, script_data: Vec<u8>) -> (tx: Self)
        requires
            script@.len() <= ENCODING_LIMIT,
            script_data@.len() <= ENCODING_LIMIT,
        ensures
            tx@ == (TransactionView {
                gas_limit,
                script: script@,
                script_data: script_data@,
                inputs: Seq::empty(),
                witnesses: Seq::empty(),
            }),
    {
        let tx = Transaction {
            gas_limit,
            script,
            script_data,
            inputs: Vec::new(),
            witnesses: Vec::new(),
        };
        assert(witness_views(tx.witnesses@) =~= Seq::<Seq<u8>>::empty());
        tx
    }

    /// A script transaction with the given fields.
    pub fn script_with_inputs(
        gas_limit: u64,
        script: Vec<u8>,
        script_data: Vec<u8>,
        inputs: Vec<CoinInput>,
        witnesses: Vec<Vec<u8>>,
    ) -> (tx: Self)
        requires
            (TransactionView {
                gas_limit,
                script: script@,
                script_data: script_data@,
                inputs: inputs@,
                witnesses: witness_views(witnesses@),
            }).is_encodable(),
        ensures
            tx@ == (TransactionView {
                gas_limit,
                script: script@,
                script_data: script_data@,
                inputs: inputs@,
                witnesses: witness_views(witnesses@),
            }),
    {
        Transaction { gas_limit, script, script_data, inputs, witnesses }
    }

    /// The most gas that the script may use.
    pub fn gas_limit(&self) -> (g: u64)
        ensures
            g == self@.gas_limit,
    {
        self.gas_limit
    }

    /// The coins that the transaction spends.
    pub fn inputs(&self) -> (inputs: &[CoinInput])
        ensures
            inputs@ == self@.inputs,
    {
        self.inputs.as_slice()
    }

    /// The identifier of the transaction under the given parameters.
    pub fn id(&self, params: &ConsensusParameters) -> (id: TxId)
        ensures
            id@ == self@.id(params.chain_id),
    {
        proof {
            use_type_invariant(self);
        }
        script_id(params.chain_id, self)
    }

    /// The canonical serialization of the transaction.
    pub fn to_bytes(&self) -> (bytes: Vec<u8>)
        ensures
            bytes@ == self@.bytes(),
    {
        proof {
            use_type_invariant(self);
        }
        script_to_bytes(self)
    }
}

/// The views of the transactions of a list, in order.
pub open spec fn transaction_views(txs: Seq<Transaction>) -> Seq<TransactionView> {
    txs.map_values(|tx: Transaction| tx@)
}

/// The identifiers of the transactions of a list on the chain `chain_id`,
/// in order.
pub open spec fn transaction_ids(txs: Seq<TransactionView>, chain_id: u64) -> Seq<Seq<u8>> {
    txs.map_values(|tx: TransactionView| tx.id(chain_id))
}

/// The canonical serializations of the transactions of a list, in order.
pub open spec fn transaction_bytes(txs: Seq<TransactionView>) -> Seq<Seq<u8>> {
    txs.map_values(|tx: TransactionView| tx.bytes())
}

/// The byte strings of a list of 32-byte values, in order.
pub open spec fn bytes32_views(ids: Seq<Bytes32>) -> Seq<Seq<u8>> {
    ids.map_values(|id: Bytes32| id@)
}

/// Whether `copy` holds, place by place, a transaction that is the same
/// as the one that `txs` holds there.
pub open spec fn is_copy_of(copy: Seq<Transaction>, txs: Seq<Transaction>) -> bool {
    &&& copy.len() == txs.len()
    &&& forall|i: int| 0 <= i < copy.len() ==> (#[trigger] copy[i])@ == txs[i]@
    &&& transaction_views(copy) == transaction_views(txs)
}

/// Copies a list of transactions.
pub fn clone_transactions(txs: &Vec<Transaction>) -> (copy: Vec<Transaction>)
    ensures
        is_copy_of(copy@, txs@),
{
    let mut copy: Vec<Transaction> = Vec::new();
    let mut i: usize = 0;
    while i < txs.len()
        invariant
            i <= txs.len(),
            copy@.len() == i,
            forall|j: int| 0 <= j < i ==> copy@[j]@ == txs@[j]@,
        decreases txs.len() - i,
    {
        copy.push(txs[i].clone());
        i += 1;
    }
    assert(transaction_views(copy@) =~= transaction_views(txs@));
    copy
}

} // verus!
