//! The byte layout of a serialized bundle, and why it can be read back in
//! one way only.
//!
//! Integers are eight little-endian bytes. A byte string is its length as
//! such an integer, then its bytes. A list is its length, then its items one
//! after the other. Hashes and signature scalars are 32 bytes as they are; a
//! parity is one byte, 0 or 1. A bundle is its parts in declaration order,
//! with nothing between them.

use crate::block::BlockView;
use crate::signer::{recovered_signer, SignedTransactionView};
use crate::witness::ExecutionWitnessView;
use vstd::bytes::{
    lemma_auto_spec_u64_to_from_le_bytes, spec_u64_from_le_bytes, spec_u64_to_le_bytes,
};
use vstd::prelude::*;

verus! {

/// Mathematical model of a bundle: a block, one signer per transaction, and
/// the witness.
pub struct InputView {
    pub block: BlockView,
    pub signers: Seq<Seq<u8>>,
    pub witness: ExecutionWitnessView,
}

/// The encoding of a length.
pub open spec fn length_prefix(len: nat) -> Seq<u8> {
    spec_u64_to_le_bytes(len as u64)
}

/// The encoding of a byte string.
pub open spec fn framed(bytes: Seq<u8>) -> Seq<u8> {
    length_prefix(bytes.len()) + bytes
}

/// The encodings of byte strings, one after the other.
pub open spec fn framed_items(items: Seq<Seq<u8>>) -> Seq<u8>
    decreases items.len(),
{
    if items.len() == 0 {
        Seq::empty()
    } else {
        framed(items.first()) + framed_items(items.drop_first())
    }
}

/// The encoding of a list of byte strings.
pub open spec fn framed_list(items: Seq<Seq<u8>>) -> Seq<u8> {
    length_prefix(items.len()) + framed_items(items)
}

/// The encoding of a parity.
pub open spec fn parity_byte(y_parity: bool) -> u8 {
    if y_parity {
        1
    } else {
        0
    }
}

/// The encoding of a transaction.
pub open spec fn transaction_wire(tx: SignedTransactionView) -> Seq<u8> {
    framed(tx.signing_payload) + tx.r + tx.s + seq![parity_byte(tx.y_parity)]
}

/// The encodings of transactions, one after the other.
pub open spec fn transaction_items(txs: Seq<SignedTransactionView>) -> Seq<u8>
    decreases txs.len(),
{
    if txs.len() == 0 {
        Seq::empty()
    } else {
        transaction_wire(txs.first()) + transaction_items(txs.drop_first())
    }
}

/// The encoding of a list of transactions.
pub open spec fn transaction_list(txs: Seq<SignedTransactionView>) -> Seq<u8> {
    length_prefix(txs.len()) + transaction_items(txs)
}

/// The encoding of a block.
pub open spec fn block_wire(block: BlockView) -> Seq<u8> {
    spec_u64_to_le_bytes(block.number) + block.hash + spec_u64_to_le_bytes(block.gas_used)
        + transaction_list(block.transactions) + framed(block.encoded)
}

/// The encoding of a witness.
pub open spec fn witness_wire(witness: ExecutionWitnessView) -> Seq<u8> {
    framed_list(witness.state) + framed_list(witness.codes) + framed_list(witness.keys)
        + framed_list(witness.headers)
}

/// The encoding of a bundle.
pub open spec fn input_wire(input: InputView) -> Seq<u8> {
    block_wire(input.block) + framed_list(input.signers) + witness_wire(input.witness)
}

/// Whether every byte string of a list, and the list, has a length that an
/// eight-byte integer can hold.
pub open spec fn list_fits(items: Seq<Seq<u8>>) -> bool {
    &&& items.len() <= u64::MAX
    &&& forall|i: int| 0 <= i < items.len() ==> (#[trigger] items[i]).len() <= u64::MAX
}

/// Whether a transaction has scalars of 32 bytes and a payload whose length
/// an eight-byte integer can hold.
pub open spec fn transaction_fits(tx: SignedTransactionView) -> bool {
    &&& tx.signing_payload.len() <= u64::MAX
    &&& tx.r.len() == 32
    &&& tx.s.len() == 32
}

/// Whether every transaction of a list fits, and the list's length too.
pub open spec fn transactions_fit(txs: Seq<SignedTransactionView>) -> bool {
    &&& txs.len() <= u64::MAX
    &&& forall|i: int| 0 <= i < txs.len() ==> transaction_fits(#[trigger] txs[i])
}

impl InputView {
    /// Whether the layout can hold this bundle: a hash and scalars of 32
    /// bytes, and every length within an eight-byte integer. Every bundle in
    /// memory is such a bundle.
    pub open spec fn representable(self) -> bool {
        &&& block_fits(self.block)
        &&& list_fits(self.signers)
        &&& witness_fits(self.witness)
    }

    /// The shape of a bundle: one signer of 64 bytes for each transaction,
    /// in the order of the transactions.
    pub open spec fn well_formed(self) -> bool {
        &&& self.signers.len() == self.block.transactions.len()
        &&& forall|i: int| 0 <= i < self.signers.len() ==> (#[trigger] self.signers[i]).len() == 64
    }

    /// Whether signer `i` is the key recovered from transaction `i`, for
    /// every transaction.
    pub open spec fn signers_correspond(self) -> bool {
        &&& self.signers.len() == self.block.transactions.len()
        &&& forall|i: int|
            0 <= i < self.signers.len() ==> recovered_signer(self.block.transactions[i]) == Some(
                #[trigger] self.signers[i],
            )
    }
}

/// Two byte strings that start with blocks of one length and are equal have
/// equal blocks and equal rests.
pub proof fn lemma_split_equal_length(a: Seq<u8>, x: Seq<u8>, b: Seq<u8>, y: Seq<u8>)
    requires
        a.len() == b.len(),
        a + x == b + y,
    ensures
        a == b,
        x == y,
{
    let n = a.len() as int;
    assert(a =~= (a + x).subrange(0, n));
    assert(b =~= (b + y).subrange(0, n));
    assert(x =~= (a + x).subrange(n, (a + x).len() as int));
    assert(y =~= (b + y).subrange(n, (b + y).len() as int));
}

/// An integer at the head of a byte string is read back in one way only.
pub proof fn lemma_split_integer(a: u64, x: Seq<u8>, b: u64, y: Seq<u8>)
    requires
        spec_u64_to_le_bytes(a) + x == spec_u64_to_le_bytes(b) + y,
    ensures
        a == b,
        x == y,
{
    lemma_auto_spec_u64_to_from_le_bytes();
    lemma_split_equal_length(spec_u64_to_le_bytes(a), x, spec_u64_to_le_bytes(b), y);
    assert(spec_u64_from_le_bytes(spec_u64_to_le_bytes(a)) == a);
    assert(spec_u64_from_le_bytes(spec_u64_to_le_bytes(b)) == b);
}

/// A byte string at the head of a byte string is read back in one way only.
pub proof fn lemma_split_framed(a: Seq<u8>, x: Seq<u8>, b: Seq<u8>, y: Seq<u8>)
    requires
        a.len() <= u64::MAX,
        b.len() <= u64::MAX,
        framed(a) + x == framed(b) + y,
    ensures
        a == b,
        x == y,
{
    assert(framed(a) + x =~= length_prefix(a.len()) + (a + x));
    assert(framed(b) + y =~= length_prefix(b.len()) + (b + y));
    lemma_split_integer(a.len() as u64, a + x, b.len() as u64, b + y);
    lemma_split_equal_length(a, x, b, y);
}

/// As many byte strings as the reader expects, at the head of a byte string,
/// are read back in one way only.
pub proof fn lemma_split_framed_items(
    a: Seq<Seq<u8>>,
    x: Seq<u8>,
    b: Seq<Seq<u8>>,
    y: Seq<u8>,
)
    requires
        a.len() == b.len(),
        list_fits(a),
        list_fits(b),
        framed_items(a) + x == framed_items(b) + y,
    ensures
        a == b,
        x == y,
    decreases a.len(),
{
    if a.len() == 0 {
        assert(framed_items(a) + x =~= x);
        assert(framed_items(b) + y =~= y);
        assert(a =~= b);
    } else {
        let ra = a.drop_first();
        let rb = b.drop_first();
        assert(framed_items(a) + x =~= framed(a.first()) + (framed_items(ra) + x));
        assert(framed_items(b) + y =~= framed(b.first()) + (framed_items(rb) + y));
        assert(a[0].len() <= u64::MAX);
        assert(b[0].len() <= u64::MAX);
        lemma_split_framed(a.first(), framed_items(ra) + x, b.first(), framed_items(rb) + y);
        assert(list_fits(ra)) by {
            assert forall|i: int| 0 <= i < ra.len() implies (#[trigger] ra[i]).len()
                <= u64::MAX by {
                assert(ra[i] == a[i + 1]);
            }
        }
        assert(list_fits(rb)) by {
            assert forall|i: int| 0 <= i < rb.len() implies (#[trigger] rb[i]).len()
                <= u64::MAX by {
                assert(rb[i] == b[i + 1]);
            }
        }
        lemma_split_framed_items(ra, x, rb, y);
        assert(a =~= seq![a.first()] + ra);
        assert(b =~= seq![b.first()] + rb);
    }
}

/// A list of byte strings at the head of a byte string is read back in one
/// way only.
pub proof fn lemma_split_framed_list(a: Seq<Seq<u8>>, x: Seq<u8>, b: Seq<Seq<u8>>, y: Seq<u8>)
    requires
        list_fits(a),
        list_fits(b),
        framed_list(a) + x == framed_list(b) + y,
    ensures
        a == b,
        x == y,
{
    assert(framed_list(a) + x =~= length_prefix(a.len()) + (framed_items(a) + x));
    assert(framed_list(b) + y =~= length_prefix(b.len()) + (framed_items(b) + y));
    lemma_split_integer(a.len() as u64, framed_items(a) + x, b.len() as u64, framed_items(b) + y);
    lemma_split_framed_items(a, x, b, y);
}

/// A transaction at the head of a byte string is read back in one way only.
pub proof fn lemma_split_transaction(
    a: SignedTransactionView,
    x: Seq<u8>,
    b: SignedTransactionView,
    y: Seq<u8>,
)
    requires
        transaction_fits(a),
        transaction_fits(b),
        transaction_wire(a) + x == transaction_wire(b) + y,
    ensures
        a == b,
        x == y,
{
    let pa = seq![parity_byte(a.y_parity)];
    let pb = seq![parity_byte(b.y_parity)];
    assert(transaction_wire(a) + x =~= framed(a.signing_payload) + (a.r + (a.s + (pa + x))));
    assert(transaction_wire(b) + y =~= framed(b.signing_payload) + (b.r + (b.s + (pb + y))));
    lemma_split_framed(
        a.signing_payload,
        a.r + (a.s + (pa + x)),
        b.signing_payload,
        b.r + (b.s + (pb + y)),
    );
    lemma_split_equal_length(a.r, a.s + (pa + x), b.r, b.s + (pb + y));
    lemma_split_equal_length(a.s, pa + x, b.s, pb + y);
    lemma_split_equal_length(pa, x, pb, y);
    assert(pa[0] == pb[0]);
}

/// As many transactions as the reader expects, at the head of a byte string,
/// are read back in one way only.
pub proof fn lemma_split_transaction_items(
    a: Seq<SignedTransactionView>,
    x: Seq<u8>,
    b: Seq<SignedTransactionView>,
    y: Seq<u8>,
)
    requires
        a.len() == b.len(),
        transactions_fit(a),
        transactions_fit(b),
        transaction_items(a) + x == transaction_items(b) + y,
    ensures
        a == b,
        x == y,
    decreases a.len(),
{
    if a.len() == 0 {
        assert(transaction_items(a) + x =~= x);
        assert(transaction_items(b) + y =~= y);
        assert(a =~= b);
    } else {
        let ra = a.drop_first();
        let rb = b.drop_first();
        assert(transaction_items(a) + x =~= transaction_wire(a.first()) + (transaction_items(ra)
            + x));
        assert(transaction_items(b) + y =~= transaction_wire(b.first()) + (transaction_items(rb)
            + y));
        assert(transaction_fits(a[0]));
        assert(transaction_fits(b[0]));
        lemma_split_transaction(
            a.first(),
            transaction_items(ra) + x,
            b.first(),
            transaction_items(rb) + y,
        );
        assert(transactions_fit(ra)) by {
            assert forall|i: int| 0 <= i < ra.len() implies transaction_fits(
                #[trigger] ra[i],
            ) by {
                assert(ra[i] == a[i + 1]);
            }
        }
        assert(transactions_fit(rb)) by {
            assert forall|i: int| 0 <= i < rb.len() implies transaction_fits(
                #[trigger] rb[i],
            ) by {
                assert(rb[i] == b[i + 1]);
            }
        }
        lemma_split_transaction_items(ra, x, rb, y);
        assert(a =~= seq![a.first()] + ra);
        assert(b =~= seq![b.first()] + rb);
    }
}

/// A list of transactions at the head of a byte string is read back in one
/// way only.
pub proof fn lemma_split_transaction_list(
    a: Seq<SignedTransactionView>,
    x: Seq<u8>,
    b: Seq<SignedTransactionView>,
    y: Seq<u8>,
)
    requires
        transactions_fit(a),
        transactions_fit(b),
        transaction_list(a) + x == transaction_list(b) + y,
    ensures
        a == b,
        x == y,
{
    assert(transaction_list(a) + x =~= length_prefix(a.len()) + (transaction_items(a) + x));
    assert(transaction_list(b) + y =~= length_prefix(b.len()) + (transaction_items(b) + y));
    lemma_split_integer(
        a.len() as u64,
        transaction_items(a) + x,
        b.len() as u64,
        transaction_items(b) + y,
    );
    lemma_split_transaction_items(a, x, b, y);
}

/// Whether the layout can hold a block.
pub open spec fn block_fits(block: BlockView) -> bool {
    &&& block.hash.len() == 32
    &&& transactions_fit(block.transactions)
    &&& block.encoded.len() <= u64::MAX
}

/// Whether the layout can hold a witness.
pub open spec fn witness_fits(witness: ExecutionWitnessView) -> bool {
    &&& list_fits(witness.state)
    &&& list_fits(witness.codes)
    &&& list_fits(witness.keys)
    &&& list_fits(witness.headers)
}

/// A block at the head of a byte string is read back in one way only.
pub proof fn lemma_split_block(a: BlockView, x: Seq<u8>, b: BlockView, y: Seq<u8>)
    requires
        block_fits(a),
        block_fits(b),
        block_wire(a) + x == block_wire(b) + y,
    ensures
        a == b,
        x == y,
{
    // What follows each part of a block, last part first.
    let a4 = framed(a.encoded) + x;
    let a3 = transaction_list(a.transactions) + a4;
    let a2 = spec_u64_to_le_bytes(a.gas_used) + a3;
    let a1 = a.hash + a2;
    let b4 = framed(b.encoded) + y;
    let b3 = transaction_list(b.transactions) + b4;
    let b2 = spec_u64_to_le_bytes(b.gas_used) + b3;
    let b1 = b.hash + b2;
    assert(block_wire(a) + x =~= spec_u64_to_le_bytes(a.number) + a1);
    assert(block_wire(b) + y =~= spec_u64_to_le_bytes(b.number) + b1);
    lemma_split_integer(a.number, a1, b.number, b1);
    lemma_split_equal_length(a.hash, a2, b.hash, b2);
    lemma_split_integer(a.gas_used, a3, b.gas_used, b3);
    lemma_split_transaction_list(a.transactions, a4, b.transactions, b4);
    lemma_split_framed(a.encoded, x, b.encoded, y);
}

/// A witness at the head of a byte string is read back in one way only.
pub proof fn lemma_split_witness(
    a: ExecutionWitnessView,
    x: Seq<u8>,
    b: ExecutionWitnessView,
    y: Seq<u8>,
)
    requires
        witness_fits(a),
        witness_fits(b),
        witness_wire(a) + x == witness_wire(b) + y,
    ensures
        a == b,
        x == y,
{
    // What follows each part of a witness, last part first.
    let a3 = framed_list(a.headers) + x;
    let a2 = framed_list(a.keys) + a3;
    let a1 = framed_list(a.codes) + a2;
    let b3 = framed_list(b.headers) + y;
    let b2 = framed_list(b.keys) + b3;
    let b1 = framed_list(b.codes) + b2;
    assert(witness_wire(a) + x =~= framed_list(a.state) + a1);
    assert(witness_wire(b) + y =~= framed_list(b.state) + b1);
    lemma_split_framed_list(a.state, a1, b.state, b1);
    lemma_split_framed_list(a.codes, a2, b.codes, b2);
    lemma_split_framed_list(a.keys, a3, b.keys, b3);
    lemma_split_framed_list(a.headers, x, b.headers, y);
}

/// Two representable bundles with the same encoding are the same bundle.
pub proof fn lemma_input_wire_injective(a: InputView, b: InputView)
    requires
        a.representable(),
        b.representable(),
        input_wire(a) == input_wire(b),
    ensures
        a == b,
{
    let a2 = witness_wire(a.witness) + Seq::<u8>::empty();
    let a1 = framed_list(a.signers) + a2;
    let b2 = witness_wire(b.witness) + Seq::<u8>::empty();
    let b1 = framed_list(b.signers) + b2;
    assert(input_wire(a) =~= block_wire(a.block) + a1);
    assert(input_wire(b) =~= block_wire(b.block) + b1);
    lemma_split_block(a.block, a1, b.block, b1);
    lemma_split_framed_list(a.signers, a2, b.signers, b2);
    lemma_split_witness(a.witness, Seq::empty(), b.witness, Seq::empty());
}

} // verus!
