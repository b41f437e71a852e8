//! Stateless input bundles for block validation.
//!
//! A bundle lets a deterministic guest validate one block without access to
//! the chain: it holds the block, the signer of each transaction and the
//! execution witness. The host side of this library recovers the signers,
//! normalizes the witness, assembles the bundle and serializes it; the guest
//! side reads the bundle back and encodes the header hash that validation
//! computed as the guest's public output.
//!
//! Fetching blocks, validating them, and reading or writing files and output
//! slots are left to the caller. [`generator`] and [`guest`] decide what the
//! caller does next; the caller does it and reports how it went.

pub mod block;
pub mod bundle;
pub mod error;
pub mod generator;
pub mod guest;
pub mod persisted;
pub mod rpc_url;
pub mod signer;
pub mod text;
pub mod types;
pub mod wire;
pub mod witness;

pub use bundle::Input;
pub use signer::recover_signers;
pub use types::{GuestProgram, InputGenArgs, InputGenerator, InputGeneratorResult, Network};
