use alloy_consensus::private::alloy_primitives::hex;
use stateless_input::block::{Block, BlockHeader};
use stateless_input::bundle::{build_input, decode_input, encode_input};
use stateless_input::error::{FailureKind, GenerationError, Stage};
use stateless_input::generator::{Action, Delivery, Event, Generation, Generator, Phase};
use stateless_input::persisted::{InputGeneratorConfig, ZethInputGenerator};
use stateless_input::signer::{
    recover_signers, SignatureRecoveryError, SignedTransaction, TransactionSignature,
};
use stateless_input::types::{GuestProgram, InputGenerator, InputGeneratorResult, Network};
use stateless_input::witness::ExecutionWitness;

fn bytes32(text: &str) -> [u8; 32] {
    let raw = hex::decode(text).unwrap();
    let mut out = [0u8; 32];
    out.copy_from_slice(&raw);
    out
}

fn transfer() -> SignedTransaction {
    SignedTransaction {
        signing_payload: hex::decode(
            "02ec0102843b9aca0085029e7822d68298f094d9e1459a7a482635700cbc20bbaf52d495ab9c9680841b55ba3ac0",
        )
        .unwrap(),
        signature: TransactionSignature {
            r: bytes32("c199674fcb29f353693dd779c017823b954b3c69dffa3cd6b2a6ff7888798039"),
            s: bytes32("28ca912de909e7e6cdef9cdcaf24c54dd8c1032946dfa1d85c206b32a9064fe8"),
            y_parity: false,
        },
    }
}

fn message() -> SignedTransaction {
    SignedTransaction {
        signing_payload: b"\x19Ethereum Signed Message:\n9Some data".to_vec(),
        signature: TransactionSignature {
            r: bytes32("b91467e570a6466aa9e9876cbcd013baba02900b8979d43fe208a4a4f339f5fd"),
            s: bytes32("6007e74cd82e037b800186422fc2da167c747ef045e5d18a5f5d4300f8e1a029"),
            y_parity: true,
        },
    }
}

fn block_100(transactions: Vec<SignedTransaction>) -> Block {
    Block {
        header: BlockHeader { number: 100, hash: [0x42; 32], gas_used: 21_000_000 },
        transactions,
        encoded: vec![0xf9, 0x02, 0x00],
    }
}

fn witness_with_keys() -> ExecutionWitness {
    ExecutionWitness {
        state: vec![vec![1, 2, 3]],
        codes: vec![vec![0x60]],
        keys: vec![vec![9; 32]],
        headers: vec![vec![0xf9]],
    }
}

fn saving_run(block_number: u64) -> Generation {
    let config = InputGeneratorConfig {
        guest: GuestProgram::Zeth,
        rpc_url: "http://localhost:8545/".to_string(),
        network: None,
        input_dir: None,
    };
    ZethInputGenerator::new(config).generation(block_number)
}

fn returning_run(guest: GuestProgram, block_number: u64) -> Generation {
    InputGenerator::new("http://localhost:8545/".to_string(), Network::Sepolia)
        .generation(guest, block_number)
}

fn abort(block_number: u64, stage: Stage, kind: FailureKind) -> Action {
    Action::Abort(GenerationError { block_number, stage, kind })
}

#[test]
fn a_configured_generation_resolves_its_defaults() {
    let run = saving_run(100);
    assert_eq!(run.guest, GuestProgram::Zeth);
    assert_eq!(run.network, Network::Mainnet);
    assert_eq!(run.rpc_url, "http://localhost:8545/");
    assert_eq!(run.block_number, 100);
    assert_eq!(run.delivery, Delivery::Save { directory: "inputs".to_string() });
    let run = returning_run(GuestProgram::Rsp, 7);
    assert_eq!(run.network, Network::Sepolia);
    assert_eq!(run.delivery, Delivery::Return);
}

#[test]
fn block_100_with_two_transactions_is_saved_as_100_2_21() {
    let run = saving_run(100);
    let (generator, action) = Generator::start(run.clone());
    assert_eq!(action, Action::Connect { rpc_url: "http://localhost:8545/".to_string() });
    assert_eq!(generator.phase, Phase::Connecting);
    assert_eq!(generator.phase.stage(), Some(Stage::Connect));

    let (generator, action) = generator.step(Event::Connected).unwrap();
    assert_eq!(action, Action::FetchBlock { number: 100 });
    assert_eq!(generator.phase, Phase::FetchingBlock);

    let block = block_100(vec![transfer(), message()]);
    let (generator, action) = generator.step(Event::BlockFetched { block: block.clone() }).unwrap();
    assert_eq!(action, Action::FetchWitness { block_hash: [0x42; 32] });
    assert_eq!(generator.phase, Phase::FetchingWitness { block: block.clone() });

    let (generator, action) =
        generator.step(Event::WitnessFetched { witness: witness_with_keys() }).unwrap();
    assert_eq!(generator.phase, Phase::Saving { gas_used: 21_000_000, tx_count: 2 });
    let bytes = match action {
        Action::Save { directory, file_name, bytes } => {
            assert_eq!(directory, "inputs");
            assert_eq!(file_name, "100_2_21_zeth.bin");
            bytes
        }
        other => panic!("{:?}", other),
    };
    let bundle = decode_input(&bytes).unwrap();
    assert_eq!(bundle.block, block);
    assert_eq!(bundle.signers, recover_signers(&block.transactions).unwrap());
    assert_eq!(bundle.signers.len(), 2);
    assert!(bundle.witness.keys.is_empty());
    assert_eq!(bundle.witness.state, witness_with_keys().state);

    let path = "inputs/100_2_21_zeth.bin".to_string();
    let (generator, action) = generator.step(Event::Saved { path: path.clone() }).unwrap();
    assert_eq!(generator.phase, Phase::Done);
    assert_eq!(generator.phase.stage(), None);
    assert_eq!(generator.run, run);
    match action {
        Action::ReportSaved(report) => {
            assert_eq!(report.input_file_path, path);
            assert_eq!(report.tx_count, 2);
            assert_eq!(report.gas_used, 21_000_000);
        }
        other => panic!("{:?}", other),
    }
    assert_eq!(generator.step(Event::Connected), None);
}

#[test]
fn a_returning_generation_hands_the_bytes_back() {
    let (generator, _) = Generator::start(returning_run(GuestProgram::Zeth, 100));
    let (generator, _) = generator.step(Event::Connected).unwrap();
    let block = block_100(vec![message()]);
    let (generator, _) = generator.step(Event::BlockFetched { block: block.clone() }).unwrap();
    let (generator, action) =
        generator.step(Event::WitnessFetched { witness: witness_with_keys() }).unwrap();
    assert_eq!(generator.phase, Phase::Done);
    let expected = encode_input(&build_input(block, witness_with_keys()).unwrap()).unwrap();
    assert_eq!(
        action,
        Action::Return(InputGeneratorResult {
            guest: GuestProgram::Zeth,
            input: expected,
            gas_used: 21_000_000,
            tx_count: 1,
        })
    );
}

#[test]
fn a_block_that_is_not_found_is_reported_by_number() {
    let (generator, _) = Generator::start(saving_run(999));
    let (generator, _) = generator.step(Event::Connected).unwrap();
    let (generator, action) = generator.step(Event::BlockNotFound).unwrap();
    assert_eq!(generator.phase, Phase::Failed);
    assert_eq!(action, abort(999, Stage::FetchBlock, FailureKind::NotFound));
    match action {
        Action::Abort(error) => {
            assert_eq!(error.message(), "block 999: fetch block: block 999 not found")
        }
        other => panic!("{:?}", other),
    }
    assert_eq!(generator.clone().step(Event::Saved { path: "x".to_string() }), None);
    assert_eq!(generator.step(Event::Connected), None);
}

#[test]
fn a_signature_that_does_not_recover_ends_the_generation_and_names_the_transaction() {
    let mut corrupted = message();
    corrupted.signature.s = [0u8; 32];
    let block = block_100(vec![transfer(), corrupted, message()]);
    assert_eq!(
        build_input(block.clone(), witness_with_keys()),
        Err(SignatureRecoveryError { tx_index: 1 })
    );
    let (generator, _) = Generator::start(saving_run(100));
    let (generator, _) = generator.step(Event::Connected).unwrap();
    let (generator, _) = generator.step(Event::BlockFetched { block }).unwrap();
    let (generator, action) =
        generator.step(Event::WitnessFetched { witness: witness_with_keys() }).unwrap();
    assert_eq!(generator.phase, Phase::Failed);
    assert_eq!(
        action,
        abort(100, Stage::RecoverSigners, FailureKind::SignatureRecovery { tx_index: 1 })
    );
}

#[test]
fn a_provider_failure_is_fatal_at_every_stage() {
    let (generator, _) = Generator::start(saving_run(5));
    let (failed, action) = generator.clone().step(Event::ProviderFailed).unwrap();
    assert_eq!(failed.phase, Phase::Failed);
    assert_eq!(action, abort(5, Stage::Connect, FailureKind::Provider));

    let (generator, _) = generator.step(Event::Connected).unwrap();
    let (_, action) = generator.clone().step(Event::ProviderFailed).unwrap();
    assert_eq!(action, abort(5, Stage::FetchBlock, FailureKind::Provider));

    let (generator, _) = generator.step(Event::BlockFetched { block: block_100(vec![]) }).unwrap();
    let (failed, action) = generator.step(Event::ProviderFailed).unwrap();
    assert_eq!(action, abort(5, Stage::FetchWitness, FailureKind::Provider));
    assert_eq!(failed.step(Event::ProviderFailed), None);
}

#[test]
fn a_file_that_cannot_be_written_is_reported_with_its_path() {
    let (generator, _) = Generator::start(saving_run(100));
    let (generator, _) = generator.step(Event::Connected).unwrap();
    let (generator, _) = generator.step(Event::BlockFetched { block: block_100(vec![]) }).unwrap();
    let (generator, action) =
        generator.step(Event::WitnessFetched { witness: witness_with_keys() }).unwrap();
    match action {
        Action::Save { file_name, .. } => assert_eq!(file_name, "100_0_21_zeth.bin"),
        other => panic!("{:?}", other),
    }
    let path = "inputs/100_0_21_zeth.bin".to_string();
    let (generator, action) = generator.step(Event::SaveFailed { path: path.clone() }).unwrap();
    assert_eq!(generator.phase, Phase::Failed);
    assert_eq!(action, abort(100, Stage::Persist, FailureKind::Io { path }));
}

#[test]
fn the_other_guest_starts_with_its_host_executor() {
    let run = returning_run(GuestProgram::Rsp, 100);
    let (generator, action) = Generator::start(run);
    assert_eq!(generator.phase, Phase::Executing);
    assert_eq!(
        action,
        Action::Execute {
            rpc_url: "http://localhost:8545/".to_string(),
            network: Network::Sepolia,
            number: 100
        }
    );
    let executed = Event::Executed { input: vec![1, 2, 3], gas_used: 30_000_001, tx_count: 4 };
    let (done, action) = generator.clone().step(executed.clone()).unwrap();
    assert_eq!(done.phase, Phase::Done);
    assert_eq!(
        action,
        Action::Return(InputGeneratorResult {
            guest: GuestProgram::Rsp,
            input: vec![1, 2, 3],
            gas_used: 30_000_001,
            tx_count: 4,
        })
    );
    let (failed, action) = generator.clone().step(Event::ProviderFailed).unwrap();
    assert_eq!(failed.phase, Phase::Failed);
    assert_eq!(action, abort(100, Stage::Execute, FailureKind::Provider));
    assert_eq!(generator.step(Event::Connected), None);

    let mut run = saving_run(100);
    run.guest = GuestProgram::Rsp;
    let (generator, _) = Generator::start(run);
    let (generator, action) = generator.step(executed).unwrap();
    assert_eq!(generator.phase, Phase::Saving { gas_used: 30_000_001, tx_count: 4 });
    assert_eq!(
        action,
        Action::Save {
            directory: "inputs".to_string(),
            file_name: "100_4_31_rsp.bin".to_string(),
            bytes: vec![1, 2, 3]
        }
    );
}

#[test]
fn events_out_of_turn_lead_nowhere_in_a_generation() {
    let (generator, _) = Generator::start(saving_run(1));
    assert_eq!(generator.clone().step(Event::BlockNotFound), None);
    assert_eq!(generator.clone().step(Event::Saved { path: "p".to_string() }), None);
    assert_eq!(
        generator.clone().step(Event::WitnessFetched { witness: witness_with_keys() }),
        None
    );
    let (generator, _) = generator.step(Event::Connected).unwrap();
    assert_eq!(generator.clone().step(Event::Connected), None);
    assert_eq!(
        generator.step(Event::Executed { input: vec![], gas_used: 0, tx_count: 0 }),
        None
    );
}

#[test]
fn build_input_aligns_signers_and_normalizes_the_witness() {
    let block = block_100(vec![message(), transfer()]);
    let input = build_input(block.clone(), witness_with_keys()).unwrap();
    assert_eq!(input.block, block);
    assert_eq!(input.signers.len(), block.transactions.len());
    assert_eq!(input.signers, recover_signers(&block.transactions).unwrap());
    assert_eq!(
        hex::encode(input.signers[0].0),
        hex::encode(recover_signers(&[message()]).unwrap()[0].0)
    );
    assert!(input.witness.keys.is_empty());
    assert_eq!(input.witness.codes, witness_with_keys().codes);
    assert_eq!(input.witness.headers, witness_with_keys().headers);
    assert_eq!(block.tx_count(), 2);
    assert_eq!(block.gas_used(), 21_000_000);
}

#[test]
fn an_empty_block_is_delivered_without_the_auxiliary_keys_of_its_witness() {
    let block = Block {
        header: BlockHeader { number: 0, hash: [0; 32], gas_used: 0 },
        transactions: vec![],
        encoded: vec![],
    };
    let witness =
        ExecutionWitness { state: vec![], codes: vec![], keys: vec![vec![1]], headers: vec![] };
    let (generator, _) = Generator::start(returning_run(GuestProgram::Zeth, 0));
    let (generator, _) = generator.step(Event::Connected).unwrap();
    let (generator, _) = generator.step(Event::BlockFetched { block: block.clone() }).unwrap();
    let (generator, action) = generator.step(Event::WitnessFetched { witness }).unwrap();
    assert_eq!(generator.phase, Phase::Done);
    let report = match action {
        Action::Return(report) => report,
        other => panic!("{:?}", other),
    };
    assert_eq!(report.tx_count, 0);
    assert_eq!(report.gas_used, 0);
    assert_eq!(report.guest, GuestProgram::Zeth);
    let bundle = decode_input(&report.input).unwrap();
    assert_eq!(bundle.witness.keys, Vec::<Vec<u8>>::new());
    assert_eq!(bundle.block, block);
    assert!(bundle.signers.is_empty());
}

#[test]
fn clearing_the_keys_beforehand_changes_no_byte() {
    let deliver = |witness: ExecutionWitness| {
        let (generator, _) = Generator::start(returning_run(GuestProgram::Zeth, 100));
        let (generator, _) = generator.step(Event::Connected).unwrap();
        let block = block_100(vec![transfer(), message()]);
        let (generator, _) = generator.step(Event::BlockFetched { block }).unwrap();
        match generator.step(Event::WitnessFetched { witness }).unwrap() {
            (_, Action::Return(report)) => report,
            (_, other) => panic!("{:?}", other),
        }
    };
    let mut cleared = witness_with_keys();
    cleared.keys.clear();
    let first = deliver(witness_with_keys());
    let second = deliver(cleared);
    let again = deliver(witness_with_keys());
    assert_eq!(first, second);
    assert_eq!(first, again);
    assert_eq!(first.tx_count, 2);
    assert_eq!(first.gas_used, 21_000_000);
}
