//! The guest side: the public output encoding of a block header hash and the
//! single-shot life cycle of one guest run.
//!
//! A guest publishes the 32-byte header hash of the block it validated as
//! eight 32-bit words. Word `i` is bytes `[4i, 4i + 4)` of the hash, read as a
//! little-endian unsigned integer, and goes to output slot `i`.

use crate::bundle::{decode_input, decoded_bundle, Input};
use vstd::prelude::*;

verus! {

/// Length of a block header hash in bytes.
pub const HASH_BYTES: usize = 32;

/// Number of 32-bit words in the public output.
pub const OUTPUT_WORDS: usize = 8;

/// The little-endian value of four bytes.
pub open spec fn le_word(b0: u8, b1: u8, b2: u8, b3: u8) -> int {
    b0 as int + 256 * (b1 as int) + 65536 * (b2 as int) + 16777216 * (b3 as int)
}

/// Byte `k` (0 is the lowest) of a 32-bit word.
pub open spec fn word_byte(word: u32, k: int) -> u8 {
    if k == 0 {
        (word as int % 256) as u8
    } else if k == 1 {
        (word as int / 256 % 256) as u8
    } else if k == 2 {
        (word as int / 65536 % 256) as u8
    } else {
        (word as int / 16777216 % 256) as u8
    }
}

/// Word `i` of a hash: bytes `[4i, 4i + 4)` read as a little-endian `u32`.
pub open spec fn output_word(hash: Seq<u8>, i: int) -> u32 {
    le_word(hash[4 * i], hash[4 * i + 1], hash[4 * i + 2], hash[4 * i + 3]) as u32
}

/// The eight output words of a hash, slot 0 first.
pub open spec fn output_words_of(hash: Seq<u8>) -> Seq<u32> {
    Seq::new(OUTPUT_WORDS as nat, |i: int| output_word(hash, i))
}

/// The hash that eight output words stand for: word `j / 4` supplies byte `j`.
pub open spec fn hash_of_words(words: Seq<u32>) -> Seq<u8> {
    Seq::new(HASH_BYTES as nat, |j: int| word_byte(words[j / 4], j % 4))
}

/// Four bytes always fit a 32-bit word, and the word gives the bytes back.
pub proof fn lemma_le_word_bytes(b0: u8, b1: u8, b2: u8, b3: u8)
    ensures
        0 <= le_word(b0, b1, b2, b3) <= u32::MAX,
        word_byte(le_word(b0, b1, b2, b3) as u32, 0) == b0,
        word_byte(le_word(b0, b1, b2, b3) as u32, 1) == b1,
        word_byte(le_word(b0, b1, b2, b3) as u32, 2) == b2,
        word_byte(le_word(b0, b1, b2, b3) as u32, 3) == b3,
{
}

/// A word is the little-endian value of its own four bytes.
pub proof fn lemma_word_bytes_le(word: u32)
    ensures
        le_word(word_byte(word, 0), word_byte(word, 1), word_byte(word, 2), word_byte(word, 3))
            == word,
{
}

/// Reads four bytes as one little-endian word.
pub fn word_from_le_bytes(b0: u8, b1: u8, b2: u8, b3: u8) -> (w: u32)
    ensures
        w as int == le_word(b0, b1, b2, b3),
{
    let lo: u32 = b0 as u32 + 256 * (b1 as u32);
    let hi: u32 = b2 as u32 + 256 * (b3 as u32);
    lo + 65536 * hi
}

/// Splits a word into its four bytes, lowest first.
pub fn word_to_le_bytes(word: u32) -> (b: [u8; 4])
    ensures
        forall|k: int| 0 <= k < 4 ==> b@[k] == word_byte(word, k),
{
    [
        (word % 256) as u8,
        (word / 256 % 256) as u8,
        (word / 65536 % 256) as u8,
        (word / 16777216 % 256) as u8,
    ]
}

/// Encodes a header hash as the eight words of the public output.
pub fn output_words(hash: &[u8; 32]) -> (words: [u32; 8])
    ensures
        words@ == output_words_of(hash@),
{
    let mut words: [u32; 8] = [0u32; 8];
    let mut i: usize = 0;
    while i < 8
        invariant
            i <= 8,
            forall|k: int| 0 <= k < i ==> words@[k] == output_word(hash@, k),
        decreases 8 - i,
    {
        let w = word_from_le_bytes(hash[4 * i], hash[4 * i + 1], hash[4 * i + 2], hash[4 * i + 3]);
        words[i] = w;
        i += 1;
    }
    assert(words@ =~= output_words_of(hash@));
    words
}

/// Reassembles the header hash from the eight words of a public output.
pub fn hash_from_words(words: &[u32; 8]) -> (hash: [u8; 32])
    ensures
        hash@ == hash_of_words(words@),
{
    let mut hash: [u8; 32] = [0u8; 32];
    let mut i: usize = 0;
    while i < 8
        invariant
            i <= 8,
            forall|j: int| 0 <= j < 4 * i ==> hash@[j] == word_byte(words@[j / 4], j % 4),
        decreases 8 - i,
    {
        let b = word_to_le_bytes(words[i]);
        hash[4 * i] = b[0];
        hash[4 * i + 1] = b[1];
        hash[4 * i + 2] = b[2];
        hash[4 * i + 3] = b[3];
        i += 1;
    }
    assert(hash@ =~= hash_of_words(words@));
    hash
}

/// Reassembling the words of a hash, low slot to high slot and little-endian
/// within each word, gives the hash back exactly.
pub proof fn lemma_output_round_trip(hash: Seq<u8>)
    requires
        hash.len() == HASH_BYTES,
    ensures
        hash_of_words(output_words_of(hash)) == hash,
{
    let back = hash_of_words(output_words_of(hash));
    assert forall|j: int| 0 <= j < 32 implies back[j] == hash[j] by {
        let i = j / 4;
        lemma_le_word_bytes(hash[4 * i], hash[4 * i + 1], hash[4 * i + 2], hash[4 * i + 3]);
    }
    assert(back =~= hash);
}

/// Encoding the reassembled hash of eight words gives the same eight words.
pub proof fn lemma_words_round_trip(words: Seq<u32>)
    requires
        words.len() == OUTPUT_WORDS,
    ensures
        output_words_of(hash_of_words(words)) == words,
{
    let again = output_words_of(hash_of_words(words));
    assert forall|i: int| 0 <= i < 8 implies again[i] == words[i] by {
        lemma_word_bytes_le(words[i]);
    }
    assert(again =~= words);
}

/// Two different hashes differ in at least one output word.
pub proof fn lemma_output_words_injective(first: Seq<u8>, second: Seq<u8>)
    requires
        first.len() == HASH_BYTES,
        second.len() == HASH_BYTES,
        first != second,
    ensures
        exists|i: int|
            0 <= i < OUTPUT_WORDS && #[trigger] output_words_of(first)[i] != output_words_of(
                second,
            )[i],
{
    lemma_output_round_trip(first);
    lemma_output_round_trip(second);
    if output_words_of(first) =~= output_words_of(second) {
        assert(first == second);
    }
}

/// Where one guest run stands. A run is single-shot: it starts, loads its
/// input, validates the block, publishes the output words and ends; or it
/// fails, and then it has published nothing.
#[derive(Debug, Clone, Copy, PartialEq, Eq)]
pub enum GuestState {
    /// Nothing read yet.
    Start,
    /// The input bytes were read back as a bundle.
    InputLoaded,
    /// The validator accepted the block; these are the words of its hash.
    Validated { words: [u32; 8] },
    /// The words are written to the output slots. Nothing follows.
    OutputEmitted { words: [u32; 8] },
    /// The input was no bundle, or the validator rejected the block.
    /// Nothing follows.
    Failed,
}

/// What happened in a guest run.
#[derive(Debug, Clone, Copy, PartialEq, Eq)]
pub enum GuestEvent {
    /// The input bytes are a bundle.
    InputDecoded,
    /// The input bytes are not a bundle.
    InputMalformed,
    /// The validator accepted the block and computed this header hash.
    BlockAccepted { hash: [u8; 32] },
    /// The validator rejected the block: the witness does not match it, or
    /// replaying it failed.
    BlockRejected,
    /// The eight words are written.
    OutputWritten,
}

/// What a guest does next.
#[derive(Debug, Clone, Copy, PartialEq, Eq)]
pub enum GuestAction {
    /// Hand block, signers and witness to the validator.
    Validate,
    /// Write word `i` to output slot `i`, for `i` from 0 to 7 in this order.
    Emit { words: [u32; 8] },
    /// End the run normally.
    Halt,
    /// End the run abnormally, with nothing written.
    Abort,
}

/// The words that a run in this state has handed out for publication.
pub open spec fn published_words(state: GuestState) -> Option<Seq<u32>> {
    match state {
        GuestState::Validated { words } => Some(words@),
        GuestState::OutputEmitted { words } => Some(words@),
        _ => None,
    }
}

/// The step relation of a guest run: for a state and an event, the state and
/// the action that follow, or `None` where the state does not wait for that
/// event.
pub open spec fn guest_transition(
    state: GuestState,
    event: GuestEvent,
    out: Option<(GuestState, GuestAction)>,
) -> bool {
    match (state, event) {
        (GuestState::Start, GuestEvent::InputDecoded) => out == Some(
            (GuestState::InputLoaded, GuestAction::Validate),
        ),
        (GuestState::Start, GuestEvent::InputMalformed) => out == Some(
            (GuestState::Failed, GuestAction::Abort),
        ),
        (GuestState::InputLoaded, GuestEvent::BlockAccepted { hash }) => {
            &&& out matches Some((GuestState::Validated { words }, GuestAction::Emit { words: emitted }))
            &&& words@ == output_words_of(hash@)
            &&& emitted == words
        },
        (GuestState::InputLoaded, GuestEvent::BlockRejected) => out == Some(
            (GuestState::Failed, GuestAction::Abort),
        ),
        (GuestState::Validated { words }, GuestEvent::OutputWritten) => out == Some(
            (GuestState::OutputEmitted { words }, GuestAction::Halt),
        ),
        _ => out is None,
    }
}

impl GuestState {
    /// The words that this run has handed out for publication, if any.
    pub fn output(&self) -> (words: Option<[u32; 8]>)
        ensures
            match words {
                Some(w) => published_words(*self) == Some(w@),
                None => published_words(*self) is None,
            },
    {
        match self {
            GuestState::Validated { words } => Some(*words),
            GuestState::OutputEmitted { words } => Some(*words),
            _ => None,
        }
    }

    /// Takes what happened and decides what follows. `None` where the state
    /// does not wait for that event; nothing follows `OutputEmitted` or
    /// `Failed`.
    pub fn step(self, event: GuestEvent) -> (out: Option<(GuestState, GuestAction)>)
        ensures
            guest_transition(self, event, out),
    {
        match self {
            GuestState::Start => match event {
                GuestEvent::InputDecoded => Some((GuestState::InputLoaded, GuestAction::Validate)),
                GuestEvent::InputMalformed => Some((GuestState::Failed, GuestAction::Abort)),
                _ => None,
            },
            GuestState::InputLoaded => match event {
                GuestEvent::BlockAccepted { hash } => {
                    let words = output_words(&hash);
                    Some((GuestState::Validated { words }, GuestAction::Emit { words }))
                },
                GuestEvent::BlockRejected => Some((GuestState::Failed, GuestAction::Abort)),
                _ => None,
            },
            GuestState::Validated { words } => match event {
                GuestEvent::OutputWritten => Some(
                    (GuestState::OutputEmitted { words }, GuestAction::Halt),
                ),
                _ => None,
            },
            GuestState::OutputEmitted { .. } => None,
            GuestState::Failed => None,
        }
    }
}

/// Reads the input of a guest run back as a bundle. Answers with the bundle,
/// where the bytes are one, and with what to report to the run.
pub fn load_input(bytes: &[u8]) -> (out: (Option<Input>, GuestEvent))
    ensures
        match decoded_bundle(bytes@) {
            Ok(bundle) => {
                &&& out.0 matches Some(input)
                &&& input@ == bundle
                &&& out.1 == GuestEvent::InputDecoded
            },
            Err(_) => out.0 is None && out.1 == GuestEvent::InputMalformed,
        },
{
    match decode_input(bytes) {
        Ok(input) => (Some(input), GuestEvent::InputDecoded),
        Err(_) => (None, GuestEvent::InputMalformed),
    }
}

/// What to report to the run for a verdict of the validator: the header hash
/// of an accepted block, or `None` for a rejected one.
pub fn verdict_event(verdict: Option<[u8; 32]>) -> (event: GuestEvent)
    ensures
        match verdict {
            Some(hash) => event == GuestEvent::BlockAccepted { hash },
            None => event == GuestEvent::BlockRejected,
        },
{
    match verdict {
        Some(hash) => GuestEvent::BlockAccepted { hash },
        None => GuestEvent::BlockRejected,
    }
}

/// A rejected block ends the run in failure, with no word handed out.
pub proof fn lemma_rejection_publishes_nothing(
    state: GuestState,
    out: Option<(GuestState, GuestAction)>,
)
    requires
        guest_transition(state, GuestEvent::BlockRejected, out),
    ensures
        out matches Some((next, action)) ==> {
            &&& next == GuestState::Failed
            &&& action == GuestAction::Abort
            &&& published_words(next) is None
        },
{
}

/// Input that is no bundle ends the run in failure, with no word handed out.
pub proof fn lemma_malformed_input_publishes_nothing(
    state: GuestState,
    out: Option<(GuestState, GuestAction)>,
)
    requires
        guest_transition(state, GuestEvent::InputMalformed, out),
    ensures
        out matches Some((next, action)) ==> {
            &&& next == GuestState::Failed
            &&& action == GuestAction::Abort
            &&& published_words(next) is None
        },
{
}

/// Words are handed out in one step only: when the validator accepts the
/// block of a loaded input. They are then the words of the accepted hash.
pub proof fn lemma_words_only_of_an_accepted_hash(
    state: GuestState,
    event: GuestEvent,
    out: Option<(GuestState, GuestAction)>,
)
    requires
        guest_transition(state, event, out),
        out matches Some((_, GuestAction::Emit { .. })),
    ensures
        state == GuestState::InputLoaded,
        event matches GuestEvent::BlockAccepted { hash } && out matches Some(
            (next, GuestAction::Emit { words }),
        ) && words@ == output_words_of(hash@) && published_words(next) == Some(words@),
{
}

/// A failed run stays failed and a finished run stays finished: neither
/// takes any further step.
pub proof fn lemma_guest_ends_once(
    state: GuestState,
    event: GuestEvent,
    out: Option<(GuestState, GuestAction)>,
)
    requires
        state == GuestState::Failed || state is OutputEmitted,
        guest_transition(state, event, out),
    ensures
        out is None,
{
}

/// Failure is reached without any word handed out, whatever came before:
/// only `Start` and `InputLoaded` lead to it.
pub proof fn lemma_failure_only_before_output(
    state: GuestState,
    event: GuestEvent,
    out: Option<(GuestState, GuestAction)>,
)
    requires
        guest_transition(state, event, out),
        out matches Some((GuestState::Failed, _)),
    ensures
        published_words(state) is None,
        state == GuestState::Start || state == GuestState::InputLoaded,
{
}

} // verus!
