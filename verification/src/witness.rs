//! The execution witness of a block and its canonical shape.
//!
//! A provider answers with state-trie nodes, contract codes, ancillary
//! headers and a list of auxiliary keys. The canonical witness carries the
//! first three verbatim and an auxiliary key list that is always empty.

use vstd::prelude::*;

verus! {

/// The state proof data needed to replay one block.
#[derive(Debug, Clone, PartialEq, Eq)]
pub struct ExecutionWitness {
    /// State-trie nodes.
    pub state: Vec<Vec<u8>>,
    /// Contract bytecodes.
    pub codes: Vec<Vec<u8>>,
    /// Auxiliary keys; empty in every canonical witness.
    pub keys: Vec<Vec<u8>>,
    /// Headers referenced during replay.
    pub headers: Vec<Vec<u8>>,
}

/// Mathematical model of an [`ExecutionWitness`].
pub struct ExecutionWitnessView {
    pub state: Seq<Seq<u8>>,
    pub codes: Seq<Seq<u8>>,
    pub keys: Seq<Seq<u8>>,
    pub headers: Seq<Seq<u8>>,
}

/// The byte strings that a list holds.
pub open spec fn byte_strings(list: Vec<Vec<u8>>) -> Seq<Seq<u8>> {
    list@.map_values(|item: Vec<u8>| item@)
}

impl View for ExecutionWitness {
    type V = ExecutionWitnessView;

    open spec fn view(&self) -> ExecutionWitnessView {
        ExecutionWitnessView {
            state: byte_strings(self.state),
            codes: byte_strings(self.codes),
            keys: byte_strings(self.keys),
            headers: byte_strings(self.headers),
        }
    }
}

impl ExecutionWitnessView {
    /// Whether the auxiliary key list is empty.
    pub open spec fn is_canonical(self) -> bool {
        self.keys.len() == 0
    }
}

/// The canonical shape of a witness: the same state nodes, codes and headers,
/// and no auxiliary keys.
pub open spec fn normalized(raw: ExecutionWitnessView) -> ExecutionWitnessView {
    ExecutionWitnessView {
        state: raw.state,
        codes: raw.codes,
        keys: Seq::empty(),
        headers: raw.headers,
    }
}

/// Reshapes a provider's witness into the canonical witness. Whatever
/// auxiliary keys the provider sent are dropped.
pub fn normalize_witness(raw: ExecutionWitness) -> (witness: ExecutionWitness)
    ensures
        witness@ == normalized(raw@),
        witness@.is_canonical(),
{
    let witness = ExecutionWitness {
        state: raw.state,
        codes: raw.codes,
        keys: Vec::new(),
        headers: raw.headers,
    };
    assert(witness@.keys =~= Seq::empty());
    witness
}

/// Normalization leaves no auxiliary key, whatever the provider sent.
pub proof fn lemma_normalized_has_no_keys(raw: ExecutionWitnessView)
    ensures
        normalized(raw).keys == Seq::<Seq<u8>>::empty(),
        normalized(raw).is_canonical(),
{
}

/// Normalizing twice is normalizing once.
pub proof fn lemma_normalized_idempotent(raw: ExecutionWitnessView)
    ensures
        normalized(normalized(raw)) == normalized(raw),
{
}

/// A canonical witness is left as it is.
pub proof fn lemma_normalized_fixes_canonical(witness: ExecutionWitnessView)
    requires
        witness.is_canonical(),
    ensures
        normalized(witness) == witness,
{
    assert(witness.keys =~= Seq::empty());
}

} // verus!
