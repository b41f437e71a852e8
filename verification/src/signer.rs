//! Signer recovery: from each signed transaction of a block, in order, the
//! public key that signed it.
//!
//! The signing hash of a transaction is the Keccak-256 digest of its signing
//! payload; the key is recovered from `(r, s, y_parity)` relative to that hash.
//! A recovered key is kept as its 64 coordinate bytes `X ‖ Y`. Recovery of a
//! block is all or nothing: one transaction that does not recover fails the
//! batch and is named by its index.

use alloy_consensus::private::alloy_primitives::{keccak256, Signature, B256};
use rayon::iter::{IntoParallelRefIterator, ParallelIterator};
use vstd::prelude::*;

verus! {

/// The raw ECDSA signature of a transaction, scalars big-endian.
#[derive(Debug, Clone, Copy, PartialEq, Eq)]
pub struct TransactionSignature {
    pub r: [u8; 32],
    pub s: [u8; 32],
    pub y_parity: bool,
}

/// What signer recovery reads of one transaction.
#[derive(Debug, Clone, PartialEq, Eq)]
pub struct SignedTransaction {
    /// The bytes whose Keccak-256 digest the signer signed.
    pub signing_payload: Vec<u8>,
    pub signature: TransactionSignature,
}

/// Mathematical model of a [`SignedTransaction`].
pub struct SignedTransactionView {
    pub signing_payload: Seq<u8>,
    pub r: Seq<u8>,
    pub s: Seq<u8>,
    pub y_parity: bool,
}

impl View for SignedTransaction {
    type V = SignedTransactionView;

    open spec fn view(&self) -> SignedTransactionView {
        SignedTransactionView {
            signing_payload: self.signing_payload@,
            r: self.signature.r@,
            s: self.signature.s@,
            y_parity: self.signature.y_parity,
        }
    }
}

/// A recovered public key: the coordinates `X ‖ Y`, 32 bytes each, without
/// the SEC1 tag byte.
#[derive(Debug, Clone, Copy, PartialEq, Eq)]
pub struct UncompressedPublicKey(pub [u8; 64]);

impl View for UncompressedPublicKey {
    type V = Seq<u8>;

    open spec fn view(&self) -> Seq<u8> {
        self.0@
    }
}

/// Recovery failed for the transaction at `tx_index`.
#[derive(Debug, Clone, Copy, PartialEq, Eq)]
pub struct SignatureRecoveryError {
    pub tx_index: usize,
}

/// The Keccak-256 digest of `data`.
pub uninterp spec fn keccak256_digest(data: Seq<u8>) -> Seq<u8>;

/// The SEC1 uncompressed encoding (tag byte, then `X ‖ Y`) of the key that
/// signed `prehash` with `(r, s, y_parity)`, or `None` where no key recovers.
pub uninterp spec fn recovered_point(prehash: Seq<u8>, r: Seq<u8>, s: Seq<u8>, y_parity: bool)
    -> Option<Seq<u8>>;

/// The signing hash of a transaction.
pub open spec fn signature_hash_of(tx: SignedTransactionView) -> Seq<u8> {
    keccak256_digest(tx.signing_payload)
}

/// The signer of a transaction: the recovered point without its tag byte.
pub open spec fn recovered_signer(tx: SignedTransactionView) -> Option<Seq<u8>> {
    match recovered_point(signature_hash_of(tx), tx.r, tx.s, tx.y_parity) {
        Some(point) => Some(point.subrange(1, 65)),
        None => None,
    }
}

/// The model of an optional key.
pub open spec fn key_view(key: Option<UncompressedPublicKey>) -> Option<Seq<u8>> {
    match key {
        Some(k) => Some(k@),
        None => None,
    }
}

/// Calls `alloy_primitives::keccak256`. Trusted: the digest is a function
/// of the bytes alone, named [`keccak256_digest`].
#[verifier::external_body]
fn keccak256_of(data: &Vec<u8>) -> (digest: [u8; 32])
    ensures
        digest@ == keccak256_digest(data@),
{
    keccak256(data).0
}

/// Calls `alloy_primitives::Signature::recover_from_prehash` on the
/// signature made of `r`, `s` and `y_parity`, and encodes the key it
/// recovers with `to_encoded_point(false)`. Trusted: whether a key recovers,
/// and the 65 bytes of its encoding, are functions of the hash and the
/// signature alone, named [`recovered_point`].
#[verifier::external_body]
fn recover_point(prehash: &[u8; 32], signature: &TransactionSignature) -> (point: Option<[u8; 65]>)
    ensures
        match point {
            Some(p) => recovered_point(prehash@, signature.r@, signature.s@, signature.y_parity)
                == Some(p@),
            None => recovered_point(prehash@, signature.r@, signature.s@, signature.y_parity)
                is None,
        },
{
    let r = B256::new(signature.r);
    let s = B256::new(signature.s);
    let sig = Signature::from_scalars_and_parity(r, s, signature.y_parity);
    match sig.recover_from_prehash(&B256::new(*prehash)) {
        Ok(key) => key.to_encoded_point(false).as_bytes().try_into().ok(),
        Err(_) => None,
    }
}

/// Runs [`recover_signer`] on every transaction through `rayon`'s
/// `par_iter`, `map` and `collect`. Trusted: the collected vector holds what
/// [`recover_signer`] answers for each transaction, one outcome per
/// transaction and in the order of the transactions, whichever worker
/// finished first.
#[verifier::external_body]
fn recover_each(txs: &[SignedTransaction]) -> (outcomes: Vec<Option<UncompressedPublicKey>>)
    ensures
        outcomes@.len() == txs@.len(),
        forall|i: int|
            0 <= i < txs@.len() ==> key_view(#[trigger] outcomes@[i]) == recovered_signer(
                txs@[i]@,
            ),
{
    txs.par_iter().map(|tx| recover_signer(tx)).collect()
}

/// Derives the signing hash of one transaction.
pub fn signature_hash(tx: &SignedTransaction) -> (hash: [u8; 32])
    ensures
        hash@ == signature_hash_of(tx@),
{
    keccak256_of(&tx.signing_payload)
}

/// Drops the tag byte of a SEC1 uncompressed point.
pub fn point_coordinates(point: &[u8; 65]) -> (key: UncompressedPublicKey)
    ensures
        key@ == point@.subrange(1, 65),
{
    let mut bytes: [u8; 64] = [0u8; 64];
    let mut i: usize = 0;
    while i < 64
        invariant
            i <= 64,
            forall|k: int| 0 <= k < i ==> bytes@[k] == point@[k + 1],
        decreases 64 - i,
    {
        bytes[i] = point[i + 1];
        i += 1;
    }
    assert(bytes@ =~= point@.subrange(1, 65));
    UncompressedPublicKey(bytes)
}

/// Recovers the signer of one transaction, or `None` where none recovers.
pub fn recover_signer(tx: &SignedTransaction) -> (key: Option<UncompressedPublicKey>)
    ensures
        key_view(key) == recovered_signer(tx@),
{
    let hash = signature_hash(tx);
    match recover_point(&hash, &tx.signature) {
        Some(point) => Some(point_coordinates(&point)),
        None => None,
    }
}

/// Turns per-transaction outcomes into the signer list, or into the error
/// that names the first transaction without a signer. No partial list is
/// ever returned.
pub fn collect_signers(outcomes: &Vec<Option<UncompressedPublicKey>>) -> (out: Result<
    Vec<UncompressedPublicKey>,
    SignatureRecoveryError,
>)
    ensures
        out is Ok <==> forall|i: int| 0 <= i < outcomes@.len() ==> outcomes@[i] is Some,
        match out {
            Ok(keys) => {
                &&& keys@.len() == outcomes@.len()
                &&& forall|i: int| 0 <= i < outcomes@.len() ==> outcomes@[i] == Some(keys@[i])
            },
            Err(e) => {
                &&& e.tx_index < outcomes@.len()
                &&& outcomes@[e.tx_index as int] is None
                &&& forall|j: int| 0 <= j < e.tx_index ==> outcomes@[j] is Some
            },
        },
{
    let mut keys: Vec<UncompressedPublicKey> = Vec::new();
    let mut i: usize = 0;
    while i < outcomes.len()
        invariant
            i <= outcomes@.len(),
            keys@.len() == i,
            forall|k: int| 0 <= k < i ==> outcomes@[k] == Some(keys@[k]),
        decreases outcomes@.len() - i,
    {
        match outcomes[i] {
            Some(key) => {
                keys.push(key);
            },
            None => {
                return Err(SignatureRecoveryError { tx_index: i });
            },
        }
        i += 1;
    }
    Ok(keys)
}

/// Recovers the signer of every transaction, in the order of the
/// transactions. Either every transaction recovers and the result is the
/// index-aligned list of keys, or the result names the first transaction that
/// does not.
pub fn recover_signers(txs: &[SignedTransaction]) -> (out: Result<
    Vec<UncompressedPublicKey>,
    SignatureRecoveryError,
>)
    ensures
        out is Ok <==> forall|i: int| 0 <= i < txs@.len() ==> recovered_signer(txs@[i]@) is Some,
        match out {
            Ok(keys) => {
                &&& keys@.len() == txs@.len()
                &&& forall|i: int|
                    0 <= i < txs@.len() ==> recovered_signer(txs@[i]@) == Some(
                        #[trigger] keys@[i]@,
                    )
            },
            Err(e) => {
                &&& e.tx_index < txs@.len()
                &&& recovered_signer(txs@[e.tx_index as int]@) is None
                &&& forall|j: int| 0 <= j < e.tx_index ==> recovered_signer(txs@[j]@) is Some
            },
        },
{
    let outcomes = recover_each(txs);
    let out = collect_signers(&outcomes);
    proof {
        assert forall|i: int| 0 <= i < txs@.len() implies key_view(outcomes@[i])
            == recovered_signer(#[trigger] txs@[i]@) by {
            let outcome = outcomes@[i];
        }
    }
    out
}

} // verus!
