//! The one error of a generation: which block, which stage, what went wrong.
//!
//! Every stage fails fast. Nothing is retried and nothing is delivered in
//! part, so a failed generation is fully described by the block it was for,
//! the stage that failed and the kind of failure.

use crate::text::{decimal_digits, decimal_string};
use vstd::prelude::*;
use vstd::string::StringExecFns;

verus! {

/// The stages of a generation that can fail, in the order they run.
#[derive(Debug, Clone, Copy, PartialEq, Eq, Structural)]
pub enum Stage {
    /// Reaching the block data provider.
    Connect,
    /// Fetching the block with all its transactions.
    FetchBlock,
    /// Fetching the witness of the fetched block.
    FetchWitness,
    /// Running the host executor of the guest that builds its own bundle.
    Execute,
    /// Recovering the signer of every transaction.
    RecoverSigners,
    /// Serializing the assembled bundle.
    Serialize,
    /// Writing the bytes to their file.
    Persist,
}

/// What went wrong.
#[derive(Debug, Clone, PartialEq, Eq)]
pub enum FailureKind {
    /// The provider could not be reached or answered with something unusable.
    Provider,
    /// The provider has no block of the requested number.
    NotFound,
    /// The transaction at `tx_index` has no recoverable signer.
    SignatureRecovery { tx_index: usize },
    /// The bundle could not be serialized.
    Serialization,
    /// The directory or file at `path` could not be written.
    Io { path: String },
}

/// The single fatal error of a generation.
#[derive(Debug, Clone, PartialEq, Eq)]
pub struct GenerationError {
    pub block_number: u64,
    pub stage: Stage,
    pub kind: FailureKind,
}

/// The name of a stage in messages.
pub open spec fn stage_name(stage: Stage) -> Seq<char> {
    match stage {
        Stage::Connect => "connect"@,
        Stage::FetchBlock => "fetch block"@,
        Stage::FetchWitness => "fetch witness"@,
        Stage::Execute => "execute"@,
        Stage::RecoverSigners => "recover signers"@,
        Stage::Serialize => "serialize input"@,
        Stage::Persist => "write input"@,
    }
}

/// What a message says of the failure itself.
pub open spec fn failure_detail(block_number: u64, kind: FailureKind) -> Seq<char> {
    match kind {
        FailureKind::Provider => "provider request failed"@,
        FailureKind::NotFound => "block "@ + decimal_digits(block_number as nat) + " not found"@,
        FailureKind::SignatureRecovery { tx_index } => "failed to recover signature for tx #"@
            + decimal_digits(tx_index as nat),
        FailureKind::Serialization => "failed to serialize input"@,
        FailureKind::Io { path } => "cannot write "@ + path@,
    }
}

/// The message of an error: the block, the stage, the failure.
pub open spec fn error_message(error: GenerationError) -> Seq<char> {
    "block "@ + decimal_digits(error.block_number as nat) + ": "@ + stage_name(error.stage) + ": "@
        + failure_detail(error.block_number, error.kind)
}

impl Stage {
    /// The name of the stage in messages.
    pub fn name(&self) -> (name: &'static str)
        ensures
            name@ == stage_name(*self),
    {
        match self {
            Stage::Connect => "connect",
            Stage::FetchBlock => "fetch block",
            Stage::FetchWitness => "fetch witness",
            Stage::Execute => "execute",
            Stage::RecoverSigners => "recover signers",
            Stage::Serialize => "serialize input",
            Stage::Persist => "write input",
        }
    }
}

impl GenerationError {
    /// What the message says of the failure itself.
    pub fn detail(&self) -> (text: String)
        ensures
            text@ == failure_detail(self.block_number, self.kind),
    {
        match &self.kind {
            FailureKind::Provider => String::from_str("provider request failed"),
            FailureKind::NotFound => {
                let mut text = String::from_str("block ");
                text.append(decimal_string(self.block_number).as_str());
                text.append(" not found");
                text
            },
            FailureKind::SignatureRecovery { tx_index } => {
                let mut text = String::from_str("failed to recover signature for tx #");
                text.append(decimal_string(*tx_index as u64).as_str());
                text
            },
            FailureKind::Serialization => String::from_str("failed to serialize input"),
            FailureKind::Io { path } => {
                let mut text = String::from_str("cannot write ");
                text.append(path.as_str());
                text
            },
        }
    }

    /// The one message shown for a failed generation. It names the block and
    /// the failing stage.
    pub fn message(&self) -> (text: String)
        ensures
            text@ == error_message(*self),
    {
        let mut text = String::from_str("block ");
        text.append(decimal_string(self.block_number).as_str());
        text.append(": ");
        text.append(self.stage.name());
        text.append(": ");
        text.append(self.detail().as_str());
        text
    }
}

} // verus!
