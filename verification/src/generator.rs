//! The course of one input generation.
//!
//! A generation alternates between work that only the outside world can do
//! (reaching the provider, fetching, writing a file) and decisions. The
//! decisions are here: [`Generator::step`] takes what the outside world
//! answered and says what to do next. Whoever drives a generation performs
//! each [`Action`] and comes back with the [`Event`] that it ended in.
//!
//! The stages run strictly one after the other. Nothing is retried. The
//! first failure ends the generation with one error that carries the block
//! number and the stage; after a failure nothing is delivered.

use crate::block::Block;
use crate::bundle::{
    build_input, decoded_bundle, encode_input, lemma_round_trip, recovered_signers, InputError,
};
use crate::error::{FailureKind, GenerationError, Stage};
use crate::persisted::{
    input_directory, input_directory_of, input_file_name, input_file_name_of, megagas_ceil,
    megagas_rounded_up, ZethInputGenerator,
};
use crate::signer::{recovered_signer, SignedTransactionView};
use crate::types::{resolve_network, resolved_network, GuestProgram, InputGenerator, Network};
use crate::wire::{input_wire, InputView};
use crate::witness::{normalized, ExecutionWitness};
use vstd::prelude::*;

verus! {

/// Where the bytes of a bundle go.
#[derive(Debug, Clone, PartialEq, Eq)]
pub enum Delivery {
    /// Back to the caller.
    Return,
    /// Into a file in `directory`.
    Save { directory: String },
}

/// What a generation is for. Fixed when the generation starts.
#[derive(Debug, Clone, PartialEq, Eq)]
pub struct Generation {
    pub guest: GuestProgram,
    pub network: Network,
    pub rpc_url: String,
    pub block_number: u64,
    pub delivery: Delivery,
}

/// How far a generation has come.
#[derive(Debug, Clone, PartialEq, Eq)]
pub enum Phase {
    /// Waiting for the connection to the provider.
    Connecting,
    /// Waiting for the block.
    FetchingBlock,
    /// Waiting for the witness of the block that was fetched.
    FetchingWitness { block: Block },
    /// Waiting for the host executor of a guest that builds its own bundle.
    Executing,
    /// Waiting for the file to be written.
    Saving { gas_used: u64, tx_count: u64 },
    /// Delivered. Nothing follows.
    Done,
    /// Failed. Nothing follows.
    Failed,
}

/// A generation under way.
#[derive(Debug, Clone, PartialEq, Eq)]
pub struct Generator {
    pub run: Generation,
    pub phase: Phase,
}

/// What the outside world answered.
#[derive(Debug, Clone, PartialEq, Eq)]
pub enum Event {
    /// The provider is reached.
    Connected,
    /// The provider has the block, and this is it.
    BlockFetched { block: Block },
    /// The provider has no block of that number.
    BlockNotFound,
    /// The witness of the block.
    WitnessFetched { witness: ExecutionWitness },
    /// The host executor built and serialized a bundle.
    Executed { input: Vec<u8>, gas_used: u64, tx_count: u64 },
    /// The file is written, at `path`.
    Saved { path: String },
    /// The provider could not be reached, or its answer could not be used.
    ProviderFailed,
    /// The directory or file at `path` could not be written.
    SaveFailed { path: String },
}

/// What to do next.
#[derive(Debug, Clone, PartialEq, Eq)]
pub enum Action {
    /// Reach the provider at `rpc_url`.
    Connect { rpc_url: String },
    /// Fetch the block of this number with all its transactions.
    FetchBlock { number: u64 },
    /// Fetch the witness of the block with this hash.
    FetchWitness { block_hash: [u8; 32] },
    /// Run the host executor for this block on this chain.
    Execute { rpc_url: String, network: Network, number: u64 },
    /// Write `bytes` to the file `file_name` in `directory`, making the
    /// directory where it is missing.
    Save { directory: String, file_name: String, bytes: Vec<u8> },
    /// Hand the report, with the bytes in it, to the caller. The end.
    Return(crate::types::InputGeneratorResult),
    /// Hand the report of the written file to the caller. The end.
    ReportSaved(crate::persisted::InputGeneratorResult),
    /// Give up with this error. The end.
    Abort(GenerationError),
}

/// The stage that a phase waits for; `None` where it waits for nothing.
pub open spec fn stage_of(phase: Phase) -> Option<Stage> {
    match phase {
        Phase::Connecting => Some(Stage::Connect),
        Phase::FetchingBlock => Some(Stage::FetchBlock),
        Phase::FetchingWitness { .. } => Some(Stage::FetchWitness),
        Phase::Executing => Some(Stage::Execute),
        Phase::Saving { .. } => Some(Stage::Persist),
        Phase::Done => None,
        Phase::Failed => None,
    }
}

/// The place of a phase in the order of a generation.
pub open spec fn phase_rank(phase: Phase) -> nat {
    match phase {
        Phase::Connecting => 0,
        Phase::FetchingBlock => 1,
        Phase::FetchingWitness { .. } => 2,
        Phase::Executing => 2,
        Phase::Saving { .. } => 3,
        Phase::Done => 4,
        Phase::Failed => 4,
    }
}

/// Whether `index` is the first transaction without a recoverable signer.
pub open spec fn is_first_unrecovered(txs: Seq<SignedTransactionView>, index: int) -> bool {
    &&& 0 <= index < txs.len()
    &&& recovered_signer(txs[index]) is None
    &&& forall|j: int| 0 <= j < index ==> recovered_signer(#[trigger] txs[j]) is Some
}

/// The bundle of a fetched block and the witness the provider sent for it.
pub open spec fn bundle_of(block: Block, witness: ExecutionWitness) -> InputView {
    InputView {
        block: block@,
        signers: recovered_signers(block@.transactions),
        witness: normalized(witness@),
    }
}

/// The generation `run` ends in failure: with the error of `stage` and
/// `kind` for the block it was for.
pub open spec fn aborts(
    run: Generation,
    out: Option<(Generator, Action)>,
    stage: Stage,
    kind: FailureKind,
) -> bool {
    &&& out matches Some((next, action))
    &&& next.run == run
    &&& next.phase == Phase::Failed
    &&& action == Action::Abort(GenerationError { block_number: run.block_number, stage, kind })
}

/// The bytes of a bundle are delivered as the generation `run` asks for:
/// returned with the report, or handed over to be written to the file named
/// after the block.
pub open spec fn delivers(
    run: Generation,
    out: Option<(Generator, Action)>,
    bytes: Seq<u8>,
    gas_used: u64,
    tx_count: u64,
) -> bool {
    &&& out matches Some((next, action))
    &&& next.run == run
    &&& match run.delivery {
        Delivery::Return => {
            &&& next.phase == Phase::Done
            &&& action matches Action::Return(report)
            &&& report.guest == run.guest
            &&& report.input@ == bytes
            &&& report.gas_used == gas_used
            &&& report.tx_count == tx_count
        },
        Delivery::Save { directory } => {
            &&& next.phase == Phase::Saving { gas_used, tx_count }
            &&& action matches Action::Save { directory: target, file_name, bytes: written }
            &&& target@ == directory@
            &&& file_name@ == input_file_name_of(
                run.block_number,
                tx_count,
                megagas_rounded_up(gas_used),
                run.guest,
            )
            &&& written@ == bytes
        },
    }
}

/// What follows the arrival of the witness. Where a transaction has no
/// recoverable signer, the first such transaction ends the generation.
/// Else the signers are recovered, the witness is normalized, the bundle is
/// assembled and serialized, and its bytes are delivered: the bundle holds
/// one 64-byte signer per transaction, each the key recovered from its
/// transaction, and its bytes read back as that bundle.
pub open spec fn assembles(
    run: Generation,
    out: Option<(Generator, Action)>,
    block: Block,
    witness: ExecutionWitness,
) -> bool {
    let txs = block@.transactions;
    if exists|i: int| is_first_unrecovered(txs, i) {
        &&& out matches Some((next, Action::Abort(error)))
        &&& next.run == run
        &&& next.phase == Phase::Failed
        &&& error.block_number == run.block_number
        &&& error.stage == Stage::RecoverSigners
        &&& error.kind matches FailureKind::SignatureRecovery { tx_index }
        &&& is_first_unrecovered(txs, tx_index as int)
    } else {
        let bundle = bundle_of(block, witness);
        &&& bundle.well_formed()
        &&& bundle.signers_correspond()
        &&& bundle.representable()
        &&& decoded_bundle(input_wire(bundle)) == Ok::<InputView, InputError>(bundle)
        &&& delivers(run, out, input_wire(bundle), block@.gas_used, txs.len() as u64)
    }
}

/// The step relation of a generation: for a generation `before` and an
/// event, the generation and the action that follow, or `None` where the
/// event is not one that the phase waits for.
pub open spec fn transition(before: Generator, event: Event, out: Option<(Generator, Action)>)
    -> bool {
    match (before.phase, event) {
        (Phase::Connecting, Event::Connected) => {
            &&& out matches Some((next, action))
            &&& next.run == before.run
            &&& next.phase == Phase::FetchingBlock
            &&& action == Action::FetchBlock { number: before.run.block_number }
        },
        (Phase::Connecting, Event::ProviderFailed) => aborts(
            before.run,
            out,
            Stage::Connect,
            FailureKind::Provider,
        ),
        (Phase::FetchingBlock, Event::BlockFetched { block }) => {
            &&& out matches Some((next, action))
            &&& next.run == before.run
            &&& next.phase == Phase::FetchingWitness { block }
            &&& action == Action::FetchWitness { block_hash: block.header.hash }
        },
        (Phase::FetchingBlock, Event::BlockNotFound) => aborts(
            before.run,
            out,
            Stage::FetchBlock,
            FailureKind::NotFound,
        ),
        (Phase::FetchingBlock, Event::ProviderFailed) => aborts(
            before.run,
            out,
            Stage::FetchBlock,
            FailureKind::Provider,
        ),
        (Phase::FetchingWitness { block }, Event::WitnessFetched { witness }) => assembles(
            before.run,
            out,
            block,
            witness,
        ),
        (Phase::FetchingWitness { .. }, Event::ProviderFailed) => aborts(
            before.run,
            out,
            Stage::FetchWitness,
            FailureKind::Provider,
        ),
        (Phase::Executing, Event::Executed { input, gas_used, tx_count }) => delivers(
            before.run,
            out,
            input@,
            gas_used,
            tx_count,
        ),
        (Phase::Executing, Event::ProviderFailed) => aborts(
            before.run,
            out,
            Stage::Execute,
            FailureKind::Provider,
        ),
        (Phase::Saving { gas_used, tx_count }, Event::Saved { path }) => {
            &&& out matches Some((next, action))
            &&& next.run == before.run
            &&& next.phase == Phase::Done
            &&& action == Action::ReportSaved(
                crate::persisted::InputGeneratorResult { input_file_path: path, gas_used, tx_count },
            )
        },
        (Phase::Saving { .. }, Event::SaveFailed { path }) => aborts(
            before.run,
            out,
            Stage::Persist,
            FailureKind::Io { path },
        ),
        _ => out is None,
    }
}

/// Ends a generation with the error of `stage` and `kind`.
fn abort(run: Generation, stage: Stage, kind: FailureKind) -> (out: Option<(Generator, Action)>)
    ensures
        aborts(run, out, stage, kind),
{
    let error = GenerationError { block_number: run.block_number, stage, kind };
    Some((Generator { run, phase: Phase::Failed }, Action::Abort(error)))
}

/// Delivers the bytes of a bundle as the generation asks for.
fn deliver(run: Generation, bytes: Vec<u8>, gas_used: u64, tx_count: u64) -> (out: Option<
    (Generator, Action),
>)
    ensures
        delivers(run, out, bytes@, gas_used, tx_count),
{
    match &run.delivery {
        Delivery::Return => {
            let report = crate::types::InputGeneratorResult {
                guest: run.guest,
                input: bytes,
                gas_used,
                tx_count,
            };
            Some((Generator { run, phase: Phase::Done }, Action::Return(report)))
        },
        Delivery::Save { directory } => {
            let file_name = input_file_name(
                run.block_number,
                tx_count,
                megagas_ceil(gas_used),
                run.guest,
            );
            let action = Action::Save { directory: directory.clone(), file_name, bytes };
            Some((Generator { run, phase: Phase::Saving { gas_used, tx_count } }, action))
        },
    }
}

/// At most one transaction is the first without a recoverable signer.
pub proof fn lemma_first_unrecovered_unique(txs: Seq<SignedTransactionView>, a: int, b: int)
    requires
        is_first_unrecovered(txs, a),
        is_first_unrecovered(txs, b),
    ensures
        a == b,
{
    if a < b {
        assert(recovered_signer(txs[a]) is Some);
    } else if b < a {
        assert(recovered_signer(txs[b]) is Some);
    }
}

impl Phase {
    /// The stage that this phase waits for, if it waits for one.
    pub fn stage(&self) -> (stage: Option<Stage>)
        ensures
            stage == stage_of(*self),
    {
        match self {
            Phase::Connecting => Some(Stage::Connect),
            Phase::FetchingBlock => Some(Stage::FetchBlock),
            Phase::FetchingWitness { .. } => Some(Stage::FetchWitness),
            Phase::Executing => Some(Stage::Execute),
            Phase::Saving { .. } => Some(Stage::Persist),
            Phase::Done => None,
            Phase::Failed => None,
        }
    }
}

impl Generator {
    /// Starts a generation. A guest whose bundle this library assembles
    /// begins by reaching the provider; a guest whose host executor builds
    /// the bundle begins with that executor.
    pub fn start(run: Generation) -> (out: (Generator, Action))
        ensures
            out.0.run == run,
            match run.guest {
                GuestProgram::Zeth => {
                    &&& out.0.phase == Phase::Connecting
                    &&& out.1 matches Action::Connect { rpc_url }
                    &&& rpc_url@ == run.rpc_url@
                },
                GuestProgram::Rsp => {
                    &&& out.0.phase == Phase::Executing
                    &&& out.1 matches Action::Execute { rpc_url, network, number }
                    &&& rpc_url@ == run.rpc_url@
                    &&& network == run.network
                    &&& number == run.block_number
                },
            },
    {
        let rpc_url = run.rpc_url.clone();
        match run.guest {
            GuestProgram::Zeth => (
                Generator { run, phase: Phase::Connecting },
                Action::Connect { rpc_url },
            ),
            GuestProgram::Rsp => {
                let action = Action::Execute {
                    rpc_url,
                    network: run.network,
                    number: run.block_number,
                };
                (Generator { run, phase: Phase::Executing }, action)
            },
        }
    }

    /// Takes the event that the last action ended in and decides what
    /// follows. `None` where the phase does not wait for that event: then
    /// nothing follows, and in particular nothing follows `Done` or `Failed`.
    pub fn step(self, event: Event) -> (out: Option<(Generator, Action)>)
        ensures
            transition(self, event, out),
    {
        let Generator { run, phase } = self;
        match phase {
            Phase::Connecting => match event {
                Event::Connected => {
                    let action = Action::FetchBlock { number: run.block_number };
                    Some((Generator { run, phase: Phase::FetchingBlock }, action))
                },
                Event::ProviderFailed => abort(run, Stage::Connect, FailureKind::Provider),
                _ => None,
            },
            Phase::FetchingBlock => match event {
                Event::BlockFetched { block } => {
                    let action = Action::FetchWitness { block_hash: block.header.hash };
                    Some((Generator { run, phase: Phase::FetchingWitness { block } }, action))
                },
                Event::BlockNotFound => abort(run, Stage::FetchBlock, FailureKind::NotFound),
                Event::ProviderFailed => abort(run, Stage::FetchBlock, FailureKind::Provider),
                _ => None,
            },
            Phase::FetchingWitness { block } => match event {
                Event::WitnessFetched { witness } => {
                    let gas_used = block.gas_used();
                    let tx_count = block.tx_count();
                    let ghost txs = block@.transactions;
                    match build_input(block, witness) {
                        Err(e) => {
                            proof {
                                assert(is_first_unrecovered(txs, e.tx_index as int));
                            }
                            let kind = FailureKind::SignatureRecovery { tx_index: e.tx_index };
                            abort(run, Stage::RecoverSigners, kind)
                        },
                        Ok(input) => {
                            proof {
                                assert forall|i: int| !is_first_unrecovered(txs, i) by {
                                    if 0 <= i < txs.len() {
                                        assert(recovered_signer(txs[i]) is Some);
                                    }
                                }
                                lemma_round_trip(input@);
                            }
                            match encode_input(&input) {
                                Err(_) => abort(run, Stage::Serialize, FailureKind::Serialization),
                                Ok(bytes) => deliver(run, bytes, gas_used, tx_count),
                            }
                        },
                    }
                },
                Event::ProviderFailed => abort(run, Stage::FetchWitness, FailureKind::Provider),
                _ => None,
            },
            Phase::Executing => match event {
                Event::Executed { input, gas_used, tx_count } => deliver(
                    run,
                    input,
                    gas_used,
                    tx_count,
                ),
                Event::ProviderFailed => abort(run, Stage::Execute, FailureKind::Provider),
                _ => None,
            },
            Phase::Saving { gas_used, tx_count } => match event {
                Event::Saved { path } => {
                    let report = crate::persisted::InputGeneratorResult {
                        input_file_path: path,
                        gas_used,
                        tx_count,
                    };
                    Some((Generator { run, phase: Phase::Done }, Action::ReportSaved(report)))
                },
                Event::SaveFailed { path } => abort(run, Stage::Persist, FailureKind::Io { path }),
                _ => None,
            },
            Phase::Done => None,
            Phase::Failed => None,
        }
    }
}

impl InputGenerator {
    /// The generation of the bundle of `block_number` for `guest`, its bytes
    /// to be returned.
    pub fn generation(&self, guest: GuestProgram, block_number: u64) -> (run: Generation)
        ensures
            run.guest == guest,
            run.network == self.network,
            run.rpc_url@ == self.rpc_url@,
            run.block_number == block_number,
            run.delivery == Delivery::Return,
    {
        Generation {
            guest,
            network: self.network,
            rpc_url: self.rpc_url.clone(),
            block_number,
            delivery: Delivery::Return,
        }
    }
}

impl ZethInputGenerator {
    /// The generation of the bundle of `block_number` as configured, its
    /// bytes to be written to a file.
    pub fn generation(&self, block_number: u64) -> (run: Generation)
        ensures
            run.guest == self.config.guest,
            run.network == resolved_network(self.config.network),
            run.rpc_url@ == self.config.rpc_url@,
            run.block_number == block_number,
            run.delivery matches Delivery::Save { directory } && directory@ == input_directory_of(
                self.config.input_dir,
            ),
    {
        Generation {
            guest: self.config.guest,
            network: resolve_network(self.config.network),
            rpc_url: self.config.rpc_url.clone(),
            block_number,
            delivery: Delivery::Save { directory: input_directory(&self.config.input_dir) },
        }
    }
}

/// The stages that can fail while a phase lasts: the stage the phase waits
/// for, and for the phase that ends with the witness also the recovery of
/// the signers, which runs on its arrival.
pub open spec fn may_fail_at(phase: Phase, stage: Stage) -> bool {
    ||| stage_of(phase) == Some(stage)
    ||| phase is FetchingWitness && stage == Stage::RecoverSigners
}

/// Fail-fast: a step ends in `Failed` exactly where it gives up, and the
/// error it gives up with carries the block number of the generation and a
/// stage of the phase that failed.
pub proof fn lemma_failure_names_block_and_stage(
    before: Generator,
    event: Event,
    next: Generator,
    action: Action,
)
    requires
        transition(before, event, Some((next, action))),
    ensures
        next.phase is Failed <==> action is Abort,
        action matches Action::Abort(error) ==> {
            &&& error.block_number == before.run.block_number
            &&& may_fail_at(before.phase, error.stage)
        },
{
}

/// No retry: every step moves a generation strictly forward in the order of
/// its phases, and leaves what the generation is for as it was.
pub proof fn lemma_generation_only_advances(
    before: Generator,
    event: Event,
    next: Generator,
    action: Action,
)
    requires
        transition(before, event, Some((next, action))),
    ensures
        next.run == before.run,
        phase_rank(next.phase) > phase_rank(before.phase),
{
}

/// A generation that is done or failed takes no further step.
pub proof fn lemma_generation_ends_once(
    before: Generator,
    event: Event,
    out: Option<(Generator, Action)>,
)
    requires
        before.phase is Done || before.phase is Failed,
        transition(before, event, out),
    ensures
        out is None,
{
}

/// Bytes leave a generation only in a step that does not fail: what is
/// returned or handed over to be written never comes with `Failed`.
pub proof fn lemma_nothing_delivered_on_failure(
    before: Generator,
    event: Event,
    next: Generator,
    action: Action,
)
    requires
        transition(before, event, Some((next, action))),
        action is Return || action is Save || action is ReportSaved,
    ensures
        !(next.phase is Failed),
        action is Save <==> next.phase is Saving,
        action is Return || action is ReportSaved <==> next.phase is Done,
{
}

/// A block that the provider does not have ends the generation with the
/// error that names the block; nothing is written.
pub proof fn lemma_missing_block_is_reported(
    before: Generator,
    next: Generator,
    action: Action,
)
    requires
        transition(before, Event::BlockNotFound, Some((next, action))),
    ensures
        before.phase is FetchingBlock,
        next.phase is Failed,
        action == Action::Abort(
            GenerationError {
                block_number: before.run.block_number,
                stage: Stage::FetchBlock,
                kind: FailureKind::NotFound,
            },
        ),
{
}

/// The auxiliary keys of the provider's witness never reach the bundle: two
/// witnesses that differ in their keys alone give the same bundle, and so
/// the same bytes.
pub proof fn lemma_keys_do_not_reach_the_bundle(
    block: Block,
    first: ExecutionWitness,
    second: ExecutionWitness,
)
    requires
        normalized(first@) == normalized(second@),
    ensures
        bundle_of(block, first) == bundle_of(block, second),
        input_wire(bundle_of(block, first)) == input_wire(bundle_of(block, second)),
        bundle_of(block, first).witness.keys == Seq::<Seq<u8>>::empty(),
{
}

/// A block whose every transaction has a recoverable signer is delivered,
/// whatever witness came with it: the step that takes the witness does not
/// fail.
pub proof fn lemma_recoverable_block_is_delivered(
    run: Generation,
    block: Block,
    witness: ExecutionWitness,
    out: Option<(Generator, Action)>,
)
    requires
        assembles(run, out, block, witness),
        forall|i: int|
            0 <= i < block@.transactions.len() ==> recovered_signer(
                #[trigger] block@.transactions[i],
            ) is Some,
    ensures
        delivers(
            run,
            out,
            input_wire(bundle_of(block, witness)),
            block@.gas_used,
            block@.transactions.len() as u64,
        ),
        decoded_bundle(input_wire(bundle_of(block, witness))) == Ok::<InputView, InputError>(
            bundle_of(block, witness),
        ),
        out matches Some((next, action)) && !(next.phase is Failed) && !(action is Abort),
{
    assert forall|i: int| !is_first_unrecovered(block@.transactions, i) by {
        if 0 <= i < block@.transactions.len() {
            assert(recovered_signer(block@.transactions[i]) is Some);
        }
    }
}

/// A generation is deterministic: two runs of the same generation that get
/// the same block, and witnesses that agree but for their auxiliary keys,
/// end the step that takes the witness alike. Both give up with the same
/// error, or both deliver the same bytes with the same gas and transaction
/// count, under the same file name where they are saved.
pub proof fn lemma_same_answers_same_bytes(
    run: Generation,
    block: Block,
    first: ExecutionWitness,
    second: ExecutionWitness,
    one: Option<(Generator, Action)>,
    other: Option<(Generator, Action)>,
)
    requires
        normalized(first@) == normalized(second@),
        assembles(run, one, block, first),
        assembles(run, other, block, second),
    ensures
        one matches Some((next_one, action_one)) && other matches Some((next_other, action_other))
            && next_one == next_other && match (action_one, action_other) {
            (Action::Abort(error_one), Action::Abort(error_other)) => error_one == error_other,
            (Action::Return(report_one), Action::Return(report_other)) => {
                &&& report_one.guest == report_other.guest
                &&& report_one.input@ == report_other.input@
                &&& report_one.gas_used == report_other.gas_used
                &&& report_one.tx_count == report_other.tx_count
            },
            (
                Action::Save { directory: directory_one, file_name: name_one, bytes: bytes_one },
                Action::Save {
                    directory: directory_other,
                    file_name: name_other,
                    bytes: bytes_other,
                },
            ) => {
                &&& directory_one@ == directory_other@
                &&& name_one@ == name_other@
                &&& bytes_one@ == bytes_other@
            },
            _ => false,
        },
{
    let txs = block@.transactions;
    if exists|i: int| is_first_unrecovered(txs, i) {
        let index_one = one->Some_0.1->Abort_0.kind->SignatureRecovery_tx_index;
        let index_other = other->Some_0.1->Abort_0.kind->SignatureRecovery_tx_index;
        lemma_first_unrecovered_unique(txs, index_one as int, index_other as int);
    }
}

} // verus!
