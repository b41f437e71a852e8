use stateless_input::block::{Block, BlockHeader};
use stateless_input::bundle::{
    assemble_input, check_input, decode_input, encode_input, serialization_outcome,
    transaction_from_parts, transactions_from_parts, unchecked_from_parts, Input, InputError,
    SerializationError, UncheckedInput,
};
use stateless_input::signer::{SignedTransaction, TransactionSignature, UncompressedPublicKey};
use stateless_input::witness::ExecutionWitness;

fn tx(payload: &[u8], fill: u8, y_parity: bool) -> SignedTransaction {
    SignedTransaction {
        signing_payload: payload.to_vec(),
        signature: TransactionSignature { r: [fill; 32], s: [fill + 1; 32], y_parity },
    }
}

fn small_input() -> Input {
    Input {
        block: Block {
            header: BlockHeader { number: 0x0102, hash: [0xaa; 32], gas_used: 21_000 },
            transactions: vec![tx(&[9, 8, 7], 0x10, true)],
            encoded: vec![0xc0],
        },
        signers: vec![UncompressedPublicKey([0x55; 64])],
        witness: ExecutionWitness {
            state: vec![vec![1, 2], vec![]],
            codes: vec![vec![3]],
            keys: vec![],
            headers: vec![vec![4, 5, 6]],
        },
    }
}

fn le(n: u64) -> Vec<u8> {
    n.to_le_bytes().to_vec()
}

/// The bytes of `small_input`, part by part.
fn small_input_bytes() -> Vec<u8> {
    let mut out = Vec::new();
    // block: number, hash, gas used
    out.extend(le(0x0102));
    out.extend([0xaa; 32]);
    out.extend(le(21_000));
    // one transaction: payload, r, s, parity
    out.extend(le(1));
    out.extend(le(3));
    out.extend([9, 8, 7]);
    out.extend([0x10; 32]);
    out.extend([0x11; 32]);
    out.push(1);
    // the block's own encoding
    out.extend(le(1));
    out.push(0xc0);
    // one signer
    out.extend(le(1));
    out.extend(le(64));
    out.extend([0x55; 64]);
    // witness: state, codes, keys, headers
    out.extend(le(2));
    out.extend(le(2));
    out.extend([1, 2]);
    out.extend(le(0));
    out.extend(le(1));
    out.extend(le(1));
    out.push(3);
    out.extend(le(0));
    out.extend(le(1));
    out.extend(le(3));
    out.extend([4, 5, 6]);
    out
}

#[test]
fn encoding_follows_the_layout_byte_for_byte() {
    let bytes = encode_input(&small_input()).unwrap();
    assert_eq!(bytes, small_input_bytes());
    assert_eq!(bytes.len(), (8 + 32 + 8) + (8 + 8 + 3 + 65) + 9 + (8 + 72) + (26 + 17 + 8 + 19));
    assert_eq!(&bytes[..8], &[0x02, 0x01, 0, 0, 0, 0, 0, 0]);
}

#[test]
fn encoding_twice_gives_the_same_bytes() {
    let input = small_input();
    assert_eq!(encode_input(&input), encode_input(&input.clone()));
}

#[test]
fn decoding_gives_the_bundle_back() {
    let input = small_input();
    let bytes = encode_input(&input).unwrap();
    assert_eq!(decode_input(&bytes), Ok(input));
}

#[test]
fn an_empty_block_round_trips() {
    let input = Input {
        block: Block {
            header: BlockHeader { number: u64::MAX, hash: [0; 32], gas_used: 0 },
            transactions: vec![],
            encoded: vec![],
        },
        signers: vec![],
        witness: ExecutionWitness { state: vec![], codes: vec![], keys: vec![], headers: vec![] },
    };
    let bytes = encode_input(&input).unwrap();
    assert_eq!(bytes.len(), 8 + 32 + 8 + 8 + 8 + 8 + 4 * 8);
    assert_eq!(decode_input(&bytes), Ok(input));
}

#[test]
fn a_trailing_byte_is_rejected() {
    let mut bytes = small_input_bytes();
    bytes.push(0);
    assert_eq!(decode_input(&bytes), Err(InputError::Malformed));
}

#[test]
fn truncated_bytes_are_rejected() {
    let bytes = small_input_bytes();
    assert_eq!(decode_input(&bytes[..bytes.len() - 1]), Err(InputError::Malformed));
    assert_eq!(decode_input(&[]), Err(InputError::Malformed));
}

#[test]
fn a_parity_byte_other_than_0_or_1_is_rejected() {
    let mut bytes = small_input_bytes();
    let at = 8 + 32 + 8 + 8 + 8 + 3 + 64;
    assert_eq!(bytes[at], 1);
    bytes[at] = 2;
    assert_eq!(decode_input(&bytes), Err(InputError::Malformed));
    bytes[at] = 0;
    let decoded = decode_input(&bytes).unwrap();
    assert!(!decoded.block.transactions[0].signature.y_parity);
}

#[test]
fn the_first_signer_of_a_wrong_length_is_named() {
    let good = vec![0x55u8; 64];
    let block = (7u64, [0u8; 32], 0u64, vec![(vec![1u8], [0u8; 32], [0u8; 32], false)], vec![0xc0u8]);
    let witness: (Vec<Vec<u8>>, Vec<Vec<u8>>, Vec<Vec<u8>>, Vec<Vec<u8>>) =
        (vec![], vec![], vec![], vec![]);
    let signers = vec![good.clone(), vec![0x55u8; 65], good, vec![1u8]];
    let bytes = bincode::serialize(&(block, signers, witness)).unwrap();
    assert_eq!(decode_input(&bytes), Err(InputError::SignerLength { index: 1 }));
}

#[test]
fn a_signer_count_that_differs_from_the_transaction_count_is_rejected() {
    let mut input = small_input();
    input.signers.push(UncompressedPublicKey([0x66; 64]));
    let bytes = encode_input(&input).unwrap();
    assert_eq!(decode_input(&bytes), Err(InputError::SignerCount { signers: 2, transactions: 1 }));
}

#[test]
fn the_library_bytes_are_those_of_the_serializer_on_the_same_parts() {
    let input = small_input();
    let t = &input.block.transactions[0];
    let block = (
        input.block.header.number,
        input.block.header.hash,
        input.block.header.gas_used,
        vec![(t.signing_payload.clone(), t.signature.r, t.signature.s, t.signature.y_parity)],
        input.block.encoded.clone(),
    );
    let signers = vec![input.signers[0].0.to_vec()];
    let w = &input.witness;
    let witness = (w.state.clone(), w.codes.clone(), w.keys.clone(), w.headers.clone());
    let direct = bincode::serialize(&(block, signers, witness)).unwrap();
    assert_eq!(encode_input(&input).unwrap(), direct);
}

#[test]
fn check_input_accepts_one_signer_of_64_bytes_per_transaction() {
    let input = small_input();
    let raw = UncheckedInput {
        block: input.block.clone(),
        signers: vec![vec![0x55; 64]],
        witness: input.witness.clone(),
    };
    assert_eq!(check_input(raw), Ok(input));
}

#[test]
fn check_input_reports_lengths_before_counts() {
    let input = small_input();
    let raw = UncheckedInput {
        block: input.block.clone(),
        signers: vec![vec![0x55; 64], vec![0x55; 63]],
        witness: input.witness.clone(),
    };
    assert_eq!(check_input(raw), Err(InputError::SignerLength { index: 1 }));
    let raw = UncheckedInput { block: input.block, signers: vec![], witness: input.witness };
    assert_eq!(check_input(raw), Err(InputError::SignerCount { signers: 0, transactions: 1 }));
}

#[test]
fn serialization_outcome_names_the_block_on_refusal() {
    assert_eq!(serialization_outcome(Ok(vec![1, 2, 3]), 100), Ok(vec![1, 2, 3]));
    let refusal = Box::new(bincode::ErrorKind::SizeLimit);
    assert_eq!(
        serialization_outcome(Err(refusal), 100),
        Err(SerializationError { block_number: 100 })
    );
}

#[test]
fn assemble_input_keeps_its_parts() {
    let parts = small_input();
    let input = assemble_input(parts.block.clone(), parts.signers.clone(), parts.witness.clone());
    assert_eq!(input, parts);
}

#[test]
fn transaction_from_parts_keeps_the_parts() {
    let built = transaction_from_parts((vec![1, 2], [3; 32], [4; 32], true));
    assert_eq!(built, tx(&[1, 2], 3, true));
}

#[test]
fn transactions_from_parts_keeps_the_order() {
    let built = transactions_from_parts(vec![
        (vec![1], [2; 32], [3; 32], false),
        (vec![], [4; 32], [5; 32], true),
        (vec![9, 9], [6; 32], [7; 32], true),
    ]);
    assert_eq!(built, vec![tx(&[1], 2, false), tx(&[], 4, true), tx(&[9, 9], 6, true)]);
    assert_eq!(transactions_from_parts(vec![]), vec![]);
}

#[test]
fn unchecked_from_parts_puts_every_part_in_its_place() {
    let input = small_input();
    let t = &input.block.transactions[0];
    let block = (
        input.block.header.number,
        input.block.header.hash,
        input.block.header.gas_used,
        vec![(t.signing_payload.clone(), t.signature.r, t.signature.s, t.signature.y_parity)],
        input.block.encoded.clone(),
    );
    let w = &input.witness;
    let witness = (w.state.clone(), w.codes.clone(), w.keys.clone(), w.headers.clone());
    let raw = unchecked_from_parts((block, vec![vec![0x55; 64], vec![1, 2]], witness));
    assert_eq!(
        raw,
        UncheckedInput {
            block: input.block,
            signers: vec![vec![0x55; 64], vec![1, 2]],
            witness: input.witness,
        }
    );
}

#[test]
fn every_bundle_serializes() {
    let mut input = small_input();
    input.signers.clear();
    input.witness.keys.push(vec![0; 70_000]);
    input.block.encoded = vec![0xab; 300_000];
    let bytes = encode_input(&input).unwrap();
    assert_eq!(bytes.len(), 291 - 72 + 8 + 70_000 + 299_999);
}
