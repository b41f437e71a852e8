//! The stateless input bundle: a block, the signer of each of its
//! transactions, and the witness to replay it against; and the bundle's
//! serialized form.
//!
//! A bundle is assembled once, serialized once and never changed. Its bytes
//! follow the layout of [`crate::wire`]: the same bundle always gives the same
//! bytes, and bytes are read back as a bundle only where they are exactly the
//! encoding of one.

use crate::block::{transaction_views, Block, BlockHeader, BlockView};
use crate::signer::{
    recover_signers, recovered_signer, SignatureRecoveryError, SignedTransaction,
    SignedTransactionView, TransactionSignature, UncompressedPublicKey,
};
use crate::wire::{
    block_fits, input_wire, lemma_input_wire_injective, list_fits, transaction_fits, witness_fits,
    InputView,
};
use crate::witness::{
    byte_strings, normalize_witness, normalized, ExecutionWitness, ExecutionWitnessView,
};
use bincode::{DefaultOptions, Options};
use vstd::prelude::*;

verus! {

/// The input of the stateless validation of one block.
#[derive(Debug, Clone, PartialEq, Eq)]
pub struct Input {
    /// The block to validate.
    pub block: Block,
    /// The signing key of each transaction of the block, index for index.
    pub signers: Vec<UncompressedPublicKey>,
    /// The witness to validate the block against.
    pub witness: ExecutionWitness,
}

/// A bundle as the decoder hands it over: the signers are byte strings of
/// whatever length and number the bytes held.
#[derive(Debug, Clone, PartialEq, Eq)]
pub struct UncheckedInput {
    pub block: Block,
    pub signers: Vec<Vec<u8>>,
    pub witness: ExecutionWitness,
}

/// Why bytes are not a bundle.
#[derive(Debug, Clone, Copy, PartialEq, Eq)]
pub enum InputError {
    /// The bytes are not the encoding of anything of a bundle's shape.
    Malformed,
    /// The signer at `index` is the first that is not 64 bytes long.
    SignerLength { index: usize },
    /// Every signer is 64 bytes long, but there is not one per transaction.
    SignerCount { signers: usize, transactions: usize },
}

/// The bundle of this block could not be serialized.
#[derive(Debug, Clone, Copy, PartialEq, Eq)]
pub struct SerializationError {
    pub block_number: u64,
}

/// The models of the keys in a list, in order.
pub open spec fn key_views(keys: Seq<UncompressedPublicKey>) -> Seq<Seq<u8>> {
    keys.map_values(|key: UncompressedPublicKey| key@)
}

/// The byte strings in a list, in order.
pub open spec fn signer_views(signers: Seq<Vec<u8>>) -> Seq<Seq<u8>> {
    signers.map_values(|signer: Vec<u8>| signer@)
}

impl View for Input {
    type V = InputView;

    open spec fn view(&self) -> InputView {
        InputView { block: self.block@, signers: key_views(self.signers@), witness: self.witness@ }
    }
}

impl View for UncheckedInput {
    type V = InputView;

    open spec fn view(&self) -> InputView {
        InputView {
            block: self.block@,
            signers: signer_views(self.signers@),
            witness: self.witness@,
        }
    }
}

/// Whether `index` is the first signer that is not 64 bytes long.
pub open spec fn is_first_bad_signer(signers: Seq<Seq<u8>>, index: int) -> bool {
    &&& 0 <= index < signers.len()
    &&& signers[index].len() != 64
    &&& forall|j: int| 0 <= j < index ==> (#[trigger] signers[j]).len() == 64
}

/// What the check of a decoded bundle answers: the bundle itself where it
/// holds one 64-byte signer per transaction, else the first fault found,
/// signer lengths before the signer count.
pub open spec fn checked_bundle(raw: InputView) -> Result<InputView, InputError> {
    if exists|i: int| is_first_bad_signer(raw.signers, i) {
        Err(
            InputError::SignerLength {
                index: (choose|i: int| is_first_bad_signer(raw.signers, i)) as usize,
            },
        )
    } else if raw.signers.len() != raw.block.transactions.len() {
        Err(
            InputError::SignerCount {
                signers: raw.signers.len() as usize,
                transactions: raw.block.transactions.len() as usize,
            },
        )
    } else {
        Ok(raw)
    }
}

/// Whether `bytes` are exactly the encoding of `input`.
pub open spec fn is_decoding(input: InputView, bytes: Seq<u8>) -> bool {
    input.representable() && input_wire(input) == bytes
}

/// What `bytes` encode, if anything. Where they encode something, they
/// encode nothing else: see [`lemma_decoding_unique`].
pub open spec fn wire_decoding(bytes: Seq<u8>) -> Option<InputView> {
    if exists|input: InputView| is_decoding(input, bytes) {
        Some(choose|input: InputView| is_decoding(input, bytes))
    } else {
        None
    }
}

/// The bundle that `bytes` stand for, or why they stand for none.
pub open spec fn decoded_bundle(bytes: Seq<u8>) -> Result<InputView, InputError> {
    match wire_decoding(bytes) {
        Some(raw) => checked_bundle(raw),
        None => Err(InputError::Malformed),
    }
}

/// The model of a decoding result.
pub open spec fn input_result_view(result: Result<Input, InputError>) -> Result<
    InputView,
    InputError,
> {
    match result {
        Ok(input) => Ok(input@),
        Err(e) => Err(e),
    }
}

/// Bytes encode at most one bundle.
pub proof fn lemma_decoding_unique(input: InputView, bytes: Seq<u8>)
    requires
        is_decoding(input, bytes),
    ensures
        wire_decoding(bytes) == Some(input),
{
    let chosen = choose|other: InputView| is_decoding(other, bytes);
    lemma_input_wire_injective(chosen, input);
}

/// Serialization is deterministic: two bundles in memory that hold the same
/// block, signers and witness have the same encoding, wherever they lie and
/// whenever they are encoded.
pub proof fn lemma_encoding_deterministic(first: Input, second: Input)
    requires
        first@ == second@,
    ensures
        input_wire(first@) == input_wire(second@),
        forall|bytes: Seq<u8>| is_decoding(first@, bytes) <==> is_decoding(second@, bytes),
{
}

/// The round trip: the encoding of a bundle decodes, and decodes to that
/// bundle.
pub proof fn lemma_round_trip(input: InputView)
    requires
        input.representable(),
        input.well_formed(),
    ensures
        decoded_bundle(input_wire(input)) == Ok::<InputView, InputError>(input),
{
    lemma_decoding_unique(input, input_wire(input));
    assert forall|i: int| !is_first_bad_signer(input.signers, i) by {
        if 0 <= i < input.signers.len() {
            assert(input.signers[i].len() == 64);
        }
    }
}

/// `bincode::ErrorKind`, what the serializer and the deserializer refuse
/// with. Nothing is read of it.
#[verifier::external_type_specification]
#[verifier::external_body]
pub struct ExBincodeErrorKind(bincode::ErrorKind);

/// The parts of a transaction in the order of the layout.
pub type TransactionParts = (Vec<u8>, [u8; 32], [u8; 32], bool);

/// The parts of a block in the order of the layout.
pub type BlockParts = (u64, [u8; 32], u64, Vec<TransactionParts>, Vec<u8>);

/// The parts of a witness in the order of the layout.
pub type WitnessParts = (Vec<Vec<u8>>, Vec<Vec<u8>>, Vec<Vec<u8>>, Vec<Vec<u8>>);

/// The parts of a bundle in the order of the layout: block, signers, witness.
pub type InputParts = (BlockParts, Vec<Vec<u8>>, WitnessParts);

/// Calls `bincode::serialize` on the parts of the bundle, as nested tuples
/// in the order of the layout. Trusted: it answers with bytes, and they are
/// the bundle in the layout of [`crate::wire`]. That is the serializer's
/// format for these types: a `u64` as eight little-endian bytes, a `bool` as
/// one byte 0 or 1, a vector or slice as its length in a `u64` and then its
/// items, an array or a tuple as its items and nothing else. It has no
/// refusal for them: it writes into a vector, without a size limit, and
/// every sequence among them knows its length.
#[verifier::external_body]
fn bincode_serialize(input: &Input) -> (out: Result<Vec<u8>, Box<bincode::ErrorKind>>)
    ensures
        out is Ok,
        out matches Ok(bytes) ==> bytes@ == input_wire(input@),
{
    let (b, w) = (&input.block, &input.witness);
    let txs: Vec<_> = b.transactions.iter().map(
        |t| (&t.signing_payload, t.signature.r, t.signature.s, t.signature.y_parity),
    ).collect();
    let signers: Vec<&[u8]> = input.signers.iter().map(|k| &k.0[..]).collect();
    let block = (b.header.number, b.header.hash, b.header.gas_used, txs, &b.encoded);
    bincode::serialize(&(block, signers, (&w.state, &w.codes, &w.keys, &w.headers)))
}

/// The model of the parts of a transaction.
pub open spec fn transaction_parts_view(parts: TransactionParts) -> SignedTransactionView {
    SignedTransactionView {
        signing_payload: parts.0@,
        r: parts.1@,
        s: parts.2@,
        y_parity: parts.3,
    }
}

/// The models of the parts of transactions, in order.
pub open spec fn transaction_parts_views(parts: Seq<TransactionParts>) -> Seq<
    SignedTransactionView,
> {
    parts.map_values(|item: TransactionParts| transaction_parts_view(item))
}

/// The bundle that its parts stand for.
pub open spec fn parts_view(parts: InputParts) -> InputView {
    InputView {
        block: BlockView {
            number: parts.0.0,
            hash: parts.0.1@,
            gas_used: parts.0.2,
            transactions: transaction_parts_views(parts.0.3@),
            encoded: parts.0.4@,
        },
        signers: signer_views(parts.1@),
        witness: ExecutionWitnessView {
            state: byte_strings(parts.2.0),
            codes: byte_strings(parts.2.1),
            keys: byte_strings(parts.2.2),
            headers: byte_strings(parts.2.3),
        },
    }
}

/// Calls `bincode::Options::deserialize`, with fixed-width integers and
/// trailing bytes rejected, for the parts of a bundle as nested tuples in
/// the order of the layout. Trusted: the parts it answers with have the
/// given bytes, all of them, as their encoding in the layout of
/// [`crate::wire`]; and it refuses only bytes that are the encoding of no
/// value.
#[verifier::external_body]
fn bincode_deserialize(bytes: &[u8]) -> (out: Result<InputParts, Box<bincode::ErrorKind>>)
    ensures
        out matches Ok(parts) ==> input_wire(parts_view(parts)) == bytes@,
        out is Err ==> forall|input: InputView| !is_decoding(input, bytes@),
{
    DefaultOptions::new().with_fixint_encoding().reject_trailing_bytes().deserialize(bytes)
}

/// Puts the parts of a transaction together.
pub fn transaction_from_parts(parts: TransactionParts) -> (tx: SignedTransaction)
    ensures
        tx@ == transaction_parts_view(parts),
{
    SignedTransaction {
        signing_payload: parts.0,
        signature: TransactionSignature { r: parts.1, s: parts.2, y_parity: parts.3 },
    }
}

/// Puts the parts of transactions together, in their order.
pub fn transactions_from_parts(parts: Vec<TransactionParts>) -> (txs: Vec<SignedTransaction>)
    ensures
        transaction_views(txs@) == transaction_parts_views(parts@),
{
    let mut txs: Vec<SignedTransaction> = Vec::new();
    for item in it: parts
        invariant
            txs@.len() == it.index(),
            it.seq() == parts@,
            forall|k: int| 0 <= k < txs@.len() ==> (#[trigger] txs@[k])@ == transaction_parts_view(
                parts@[k],
            ),
    {
        txs.push(transaction_from_parts(item));
    }
    assert(transaction_views(txs@) =~= transaction_parts_views(parts@));
    txs
}

/// Puts the parts of a decoded bundle together.
pub fn unchecked_from_parts(parts: InputParts) -> (raw: UncheckedInput)
    ensures
        raw@ == parts_view(parts),
{
    let (block_parts, signers, witness_parts) = parts;
    let (number, hash, gas_used, transaction_parts, encoded) = block_parts;
    let (state, codes, keys, headers) = witness_parts;
    let transactions = transactions_from_parts(transaction_parts);
    UncheckedInput {
        block: Block { header: BlockHeader { number, hash, gas_used }, transactions, encoded },
        signers,
        witness: ExecutionWitness { state, codes, keys, headers },
    }
}

/// A list of byte strings in memory has lengths that the layout can hold.
pub proof fn lemma_list_in_memory_fits(list: &Vec<Vec<u8>>)
    ensures
        list_fits(byte_strings(*list)),
{
    let items = byte_strings(*list);
    assert(list.len() == list@.len());
    assert forall|i: int| 0 <= i < items.len() implies (#[trigger] items[i]).len()
        <= u64::MAX by {
        assert(list@[i].len() == list@[i]@.len());
    }
}

/// A block in memory is one that the layout can hold.
pub proof fn lemma_block_in_memory_fits(block: &Block)
    ensures
        block_fits(block@),
{
    let txs = block@.transactions;
    assert(block.transactions.len() == block.transactions@.len());
    assert(block.encoded.len() == block.encoded@.len());
    assert forall|i: int| 0 <= i < txs.len() implies transaction_fits(#[trigger] txs[i]) by {
        let tx = block.transactions@[i];
        assert(tx.signing_payload.len() == tx.signing_payload@.len());
    }
}

/// A witness in memory is one that the layout can hold.
pub proof fn lemma_witness_in_memory_fits(witness: &ExecutionWitness)
    ensures
        witness_fits(witness@),
{
    lemma_list_in_memory_fits(&witness.state);
    lemma_list_in_memory_fits(&witness.codes);
    lemma_list_in_memory_fits(&witness.keys);
    lemma_list_in_memory_fits(&witness.headers);
}

/// A bundle in memory is one that the layout can hold.
pub proof fn lemma_input_in_memory_representable(input: &Input)
    ensures
        input@.representable(),
{
    lemma_block_in_memory_fits(&input.block);
    lemma_witness_in_memory_fits(&input.witness);
    assert(input.signers.len() == input.signers@.len());
}

/// A decoded bundle in memory is one that the layout can hold.
pub proof fn lemma_unchecked_in_memory_representable(raw: &UncheckedInput)
    ensures
        raw@.representable(),
{
    lemma_block_in_memory_fits(&raw.block);
    lemma_witness_in_memory_fits(&raw.witness);
    lemma_list_in_memory_fits(&raw.signers);
    assert(signer_views(raw.signers@) =~= byte_strings(raw.signers));
}

/// At most one signer is the first that is not 64 bytes long.
pub proof fn lemma_first_bad_signer_unique(signers: Seq<Seq<u8>>, index: int)
    requires
        is_first_bad_signer(signers, index),
    ensures
        (choose|i: int| is_first_bad_signer(signers, i)) == index,
{
    let chosen = choose|i: int| is_first_bad_signer(signers, i);
    if chosen < index {
        assert(signers[chosen].len() == 64);
    } else if index < chosen {
        assert(signers[index].len() == 64);
    }
}

/// Reads a byte string of 64 bytes as a key.
fn key_from_bytes(bytes: &Vec<u8>) -> (key: UncompressedPublicKey)
    requires
        bytes@.len() == 64,
    ensures
        key@ == bytes@,
{
    let mut out: [u8; 64] = [0u8; 64];
    let mut i: usize = 0;
    while i < 64
        invariant
            i <= 64,
            bytes@.len() == 64,
            forall|k: int| 0 <= k < i ==> out@[k] == bytes@[k],
        decreases 64 - i,
    {
        out[i] = bytes[i];
        i += 1;
    }
    assert(out@ =~= bytes@);
    UncompressedPublicKey(out)
}

/// Holds a decoded bundle to the invariant of a bundle: signers of 64 bytes,
/// one per transaction.
pub fn check_input(raw: UncheckedInput) -> (out: Result<Input, InputError>)
    ensures
        input_result_view(out) == checked_bundle(raw@),
{
    let mut keys: Vec<UncompressedPublicKey> = Vec::new();
    let mut i: usize = 0;
    while i < raw.signers.len()
        invariant
            i <= raw.signers@.len(),
            keys@.len() == i,
            forall|k: int| 0 <= k < i ==> (#[trigger] keys@[k])@ == raw.signers@[k]@,
            forall|k: int| 0 <= k < i ==> (#[trigger] raw@.signers[k]).len() == 64,
        decreases raw.signers@.len() - i,
    {
        if raw.signers[i].len() != 64 {
            proof {
                assert(raw@.signers[i as int] == raw.signers@[i as int]@);
                lemma_first_bad_signer_unique(raw@.signers, i as int);
            }
            return Err(InputError::SignerLength { index: i });
        }
        let key = key_from_bytes(&raw.signers[i]);
        keys.push(key);
        proof {
            assert(raw@.signers[i as int] == raw.signers@[i as int]@);
        }
        i += 1;
    }
    proof {
        assert forall|k: int| !is_first_bad_signer(raw@.signers, k) by {
            if 0 <= k < raw@.signers.len() {
                assert(raw@.signers[k].len() == 64);
            }
        }
    }
    if keys.len() != raw.block.transactions.len() {
        return Err(
            InputError::SignerCount {
                signers: keys.len(),
                transactions: raw.block.transactions.len(),
            },
        );
    }
    let input = Input { block: raw.block, signers: keys, witness: raw.witness };
    proof {
        assert(input@.signers =~= raw@.signers);
    }
    Ok(input)
}

/// What serialization answers for each outcome of the serializer: its bytes,
/// or the error that names the block.
pub fn serialization_outcome(
    outcome: Result<Vec<u8>, Box<bincode::ErrorKind>>,
    block_number: u64,
) -> (out: Result<Vec<u8>, SerializationError>)
    ensures
        match outcome {
            Ok(bytes) => out == Ok::<Vec<u8>, SerializationError>(bytes),
            Err(_) => out == Err::<Vec<u8>, SerializationError>(
                SerializationError { block_number },
            ),
        },
{
    match outcome {
        Ok(bytes) => Ok(bytes),
        Err(_) => Err(SerializationError { block_number }),
    }
}

/// Serializes a bundle. Every bundle serializes: the answer is `Ok`, and its
/// bytes are the encoding of the bundle in the layout of [`crate::wire`], the
/// same for the same bundle.
pub fn encode_input(input: &Input) -> (out: Result<Vec<u8>, SerializationError>)
    ensures
        out matches Ok(bytes) && bytes@ == input_wire(input@) && is_decoding(input@, bytes@),
{
    proof {
        lemma_input_in_memory_representable(input);
    }
    serialization_outcome(bincode_serialize(input), input.block.header.number)
}

/// Reads a bundle back from its bytes. The answer is a bundle exactly where
/// the bytes are, to the last byte, the encoding of a bundle with one 64-byte
/// signer per transaction; it is then that bundle.
pub fn decode_input(bytes: &[u8]) -> (out: Result<Input, InputError>)
    ensures
        input_result_view(out) == decoded_bundle(bytes@),
{
    match bincode_deserialize(bytes) {
        Ok(parts) => {
            let raw = unchecked_from_parts(parts);
            proof {
                lemma_unchecked_in_memory_representable(&raw);
                lemma_decoding_unique(raw@, bytes@);
            }
            check_input(raw)
        },
        Err(_) => Err(InputError::Malformed),
    }
}

/// Puts a block, its signers and its normalized witness together as one
/// bundle.
pub fn assemble_input(
    block: Block,
    signers: Vec<UncompressedPublicKey>,
    witness: ExecutionWitness,
) -> (input: Input)
    requires
        signers@.len() == block@.transactions.len(),
        witness@.is_canonical(),
    ensures
        input@ == (InputView { block: block@, signers: key_views(signers@), witness: witness@ }),
        input@.well_formed(),
        input@.representable(),
{
    let input = Input { block, signers, witness };
    proof {
        lemma_input_in_memory_representable(&input);
        assert forall|i: int| 0 <= i < input@.signers.len() implies (
        #[trigger] input@.signers[i]).len() == 64 by {
            assert(input@.signers[i] == input.signers@[i]@);
        }
    }
    input
}

/// The signers of a list of transactions, where every one recovers.
pub open spec fn recovered_signers(txs: Seq<SignedTransactionView>) -> Seq<Seq<u8>> {
    txs.map_values(|tx: SignedTransactionView| recovered_signer(tx)->Some_0)
}

/// One signer per transaction, index for index.
pub proof fn lemma_signers_align_with_transactions(txs: Seq<SignedTransactionView>)
    ensures
        recovered_signers(txs).len() == txs.len(),
        forall|i: int|
            0 <= i < txs.len() ==> #[trigger] recovered_signers(txs)[i] == recovered_signer(
                txs[i],
            )->Some_0,
{
}

/// Builds the bundle of a fetched block: recovers the signers, normalizes the
/// witness and assembles the three. Where a transaction does not recover, no
/// bundle is built and the first such transaction is named.
pub fn build_input(block: Block, raw_witness: ExecutionWitness) -> (out: Result<
    Input,
    SignatureRecoveryError,
>)
    ensures
        out is Ok <==> forall|i: int|
            0 <= i < block@.transactions.len() ==> recovered_signer(
                #[trigger] block@.transactions[i],
            ) is Some,
        match out {
            Ok(input) => {
                &&& input@ == (InputView {
                    block: block@,
                    signers: recovered_signers(block@.transactions),
                    witness: normalized(raw_witness@),
                })
                &&& input@.well_formed()
                &&& input@.signers_correspond()
                &&& input@.representable()
            },
            Err(e) => {
                &&& e.tx_index < block@.transactions.len()
                &&& recovered_signer(block@.transactions[e.tx_index as int]) is None
                &&& forall|j: int|
                    0 <= j < e.tx_index ==> recovered_signer(
                        #[trigger] block@.transactions[j],
                    ) is Some
            },
        },
{
    let recovered = recover_signers(block.transactions.as_slice());
    proof {
        assert forall|i: int| 0 <= i < block@.transactions.len() implies (
        #[trigger] block@.transactions[i]) == block.transactions@[i]@ by {}
    }
    match recovered {
        Ok(signers) => {
            let witness = normalize_witness(raw_witness);
            proof {
                assert(key_views(signers@) =~= recovered_signers(block@.transactions)) by {
                    assert forall|i: int| 0 <= i < signers@.len() implies key_views(signers@)[i]
                        == recovered_signers(block@.transactions)[i] by {
                        assert(recovered_signer(block.transactions@[i]@) == Some(signers@[i]@));
                    }
                }
            }
            Ok(assemble_input(block, signers, witness))
        },
        Err(e) => Err(e),
    }
}

} // verus!
