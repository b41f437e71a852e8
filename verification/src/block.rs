//! What input generation reads of a fetched block.

use crate::signer::{SignedTransaction, SignedTransactionView};
use vstd::prelude::*;

verus! {

/// The header fields that input generation reads.
#[derive(Debug, Clone, Copy, PartialEq, Eq)]
pub struct BlockHeader {
    pub number: u64,
    /// The canonical identity of the block.
    pub hash: [u8; 32],
    pub gas_used: u64,
}

/// One block: its header fields, its transactions in block order, and the
/// whole block in the provider's canonical encoding. The encoding is carried
/// to the validator as it is and never read here.
#[derive(Debug, Clone, PartialEq, Eq)]
pub struct Block {
    pub header: BlockHeader,
    pub transactions: Vec<SignedTransaction>,
    pub encoded: Vec<u8>,
}

/// Mathematical model of a [`Block`].
pub struct BlockView {
    pub number: u64,
    pub hash: Seq<u8>,
    pub gas_used: u64,
    pub transactions: Seq<SignedTransactionView>,
    pub encoded: Seq<u8>,
}

/// The models of the transactions in a list, in order.
pub open spec fn transaction_views(txs: Seq<SignedTransaction>) -> Seq<SignedTransactionView> {
    txs.map_values(|tx: SignedTransaction| tx@)
}

impl View for Block {
    type V = BlockView;

    open spec fn view(&self) -> BlockView {
        BlockView {
            number: self.header.number,
            hash: self.header.hash@,
            gas_used: self.header.gas_used,
            transactions: transaction_views(self.transactions@),
            encoded: self.encoded@,
        }
    }
}

impl Block {
    /// The number of transactions in the block.
    pub fn tx_count(&self) -> (count: u64)
        ensures
            count == self@.transactions.len(),
    {
        self.transactions.len() as u64
    }

    /// The gas that the block used.
    pub fn gas_used(&self) -> (gas: u64)
        ensures
            gas == self@.gas_used,
    {
        self.header.gas_used
    }
}

} // verus!
