use stateless_input::error::{FailureKind, GenerationError, Stage};
use stateless_input::persisted::{
    input_directory, input_file_name, megagas_ceil, megagas_floor, InputGeneratorConfig,
    ZethInputGenerator, GAS_PER_MEGAGAS,
};
use stateless_input::rpc_url::{validate_rpc_url, InvalidRpcUrl};
use stateless_input::text::decimal_string;
use stateless_input::types::{
    resolve_guest, resolve_network, GuestProgram, InputGenArgs, InputGenerator, Network,
};
use stateless_input::witness::{normalize_witness, ExecutionWitness};

#[test]
fn decimal_strings_match_the_standard_formatting() {
    assert_eq!(decimal_string(0), "0");
    assert_eq!(decimal_string(7), "7");
    assert_eq!(decimal_string(10), "10");
    assert_eq!(decimal_string(1_000_000), "1000000");
    assert_eq!(decimal_string(u64::MAX), "18446744073709551615");
    for n in [9u64, 99, 100, 101, 12345, 9_007_199_254_740_993] {
        assert_eq!(decimal_string(n), format!("{}", n));
    }
}

#[test]
fn guest_names_are_lower_case() {
    assert_eq!(GuestProgram::Rsp.to_string(), "rsp");
    assert_eq!(GuestProgram::Zeth.to_string(), "zeth");
}

#[test]
fn the_network_defaults_to_mainnet() {
    assert_eq!(Network::default(), Network::Mainnet);
    assert_eq!(resolve_network(None), Network::Mainnet);
    assert_eq!(resolve_network(Some(Network::Sepolia)), Network::Sepolia);
    assert_eq!(resolve_network(Some(Network::Mainnet)), Network::Mainnet);
}

#[test]
fn megagas_rounds_up_or_down() {
    assert_eq!(GAS_PER_MEGAGAS, 1_000_000);
    assert_eq!(megagas_ceil(0), 0);
    assert_eq!(megagas_ceil(1), 1);
    assert_eq!(megagas_ceil(999_999), 1);
    assert_eq!(megagas_ceil(1_000_000), 1);
    assert_eq!(megagas_ceil(1_000_001), 2);
    assert_eq!(megagas_ceil(21_000_000), 21);
    assert_eq!(megagas_ceil(29_999_999), 30);
    assert_eq!(megagas_ceil(u64::MAX), 18_446_744_073_710);
    assert_eq!(megagas_floor(0), 0);
    assert_eq!(megagas_floor(999_999), 0);
    assert_eq!(megagas_floor(1_000_000), 1);
    assert_eq!(megagas_floor(21_000_000), 21);
    assert_eq!(megagas_floor(29_999_999), 29);
    assert_eq!(megagas_floor(u64::MAX), 18_446_744_073_709);
}

#[test]
fn file_names_hold_block_transactions_megagas_and_guest() {
    assert_eq!(input_file_name(100, 2, 21, GuestProgram::Zeth), "100_2_21_zeth.bin");
    assert_eq!(input_file_name(100, 2, 21, GuestProgram::Rsp), "100_2_21_rsp.bin");
    assert_eq!(input_file_name(0, 0, 0, GuestProgram::Rsp), "0_0_0_rsp.bin");
    assert_eq!(
        input_file_name(23_456_789, 312, megagas_ceil(35_123_456), GuestProgram::Zeth),
        "23456789_312_36_zeth.bin"
    );
    assert_eq!(
        input_file_name(23_456_789, 312, megagas_floor(35_123_456), GuestProgram::Zeth),
        "23456789_312_35_zeth.bin"
    );
}

#[test]
fn bundles_go_to_the_configured_directory_or_to_inputs() {
    assert_eq!(input_directory(&None), "inputs");
    assert_eq!(input_directory(&Some("out/blocks".to_string())), "out/blocks");
}

#[test]
fn generators_keep_what_they_were_made_with() {
    let generator = InputGenerator::new("http://localhost:8545/".to_string(), Network::Sepolia);
    assert_eq!(generator.rpc_url, "http://localhost:8545/");
    assert_eq!(generator.network, Network::Sepolia);
    let config = InputGeneratorConfig {
        guest: GuestProgram::Zeth,
        rpc_url: "http://localhost:8545/".to_string(),
        network: None,
        input_dir: Some("x".to_string()),
    };
    let generator = ZethInputGenerator::new(config);
    assert_eq!(generator.get_config().guest, GuestProgram::Zeth);
    assert_eq!(generator.get_config().input_dir, Some("x".to_string()));
    assert_eq!(generator.get_config().network, None);
    let args = InputGenArgs {
        block_number: 5,
        network: Network::default(),
        rpc_url: "http://localhost:8545".to_string(),
        input_dir: None,
        guest: None,
    };
    assert_eq!(args.clone().block_number, 5);
    assert_eq!(resolve_guest(args.guest), GuestProgram::Zeth);
    assert_eq!(resolve_guest(Some(GuestProgram::Rsp)), GuestProgram::Rsp);
    assert_eq!(resolve_guest(Some(GuestProgram::Zeth)), GuestProgram::Zeth);
}

#[test]
fn messages_name_the_block_and_the_stage() {
    let not_found =
        GenerationError { block_number: 999, stage: Stage::FetchBlock, kind: FailureKind::NotFound };
    assert_eq!(not_found.detail(), "block 999 not found");
    assert_eq!(not_found.message(), "block 999: fetch block: block 999 not found");
    let recovery = GenerationError {
        block_number: 100,
        stage: Stage::RecoverSigners,
        kind: FailureKind::SignatureRecovery { tx_index: 17 },
    };
    assert_eq!(
        recovery.message(),
        "block 100: recover signers: failed to recover signature for tx #17"
    );
    let provider =
        GenerationError { block_number: 1, stage: Stage::Connect, kind: FailureKind::Provider };
    assert_eq!(provider.message(), "block 1: connect: provider request failed");
    let witness = GenerationError {
        block_number: 1,
        stage: Stage::FetchWitness,
        kind: FailureKind::Provider,
    };
    assert_eq!(witness.message(), "block 1: fetch witness: provider request failed");
    let executor =
        GenerationError { block_number: 2, stage: Stage::Execute, kind: FailureKind::Provider };
    assert_eq!(executor.message(), "block 2: execute: provider request failed");
    let serialization = GenerationError {
        block_number: 3,
        stage: Stage::Serialize,
        kind: FailureKind::Serialization,
    };
    assert_eq!(serialization.message(), "block 3: serialize input: failed to serialize input");
    let io = GenerationError {
        block_number: 4,
        stage: Stage::Persist,
        kind: FailureKind::Io { path: "inputs/4_0_0_zeth.bin".to_string() },
    };
    assert_eq!(io.message(), "block 4: write input: cannot write inputs/4_0_0_zeth.bin");
    assert_eq!(Stage::Persist.name(), "write input");
}

#[test]
fn an_absolute_url_is_accepted_in_its_normal_form() {
    assert_eq!(validate_rpc_url("http://localhost:8545"), Ok("http://localhost:8545/".to_string()));
    assert_eq!(
        validate_rpc_url("HTTPS://Example.COM/rpc?key=1"),
        Ok("https://example.com/rpc?key=1".to_string())
    );
}

#[test]
fn a_text_that_is_no_absolute_url_is_refused_with_the_reason() {
    let relative = validate_rpc_url("not a url").unwrap_err();
    assert_eq!(relative, InvalidRpcUrl { reason: "relative URL without a base".to_string() });
    assert_eq!(relative.message(), "Invalid RPC URL, error: relative URL without a base");
    let empty = validate_rpc_url("").unwrap_err();
    assert_eq!(empty.message(), "Invalid RPC URL, error: relative URL without a base");
    let port = validate_rpc_url("http://localhost:99999").unwrap_err();
    assert_eq!(port.message(), "Invalid RPC URL, error: invalid port number");
}

fn provider_witness() -> ExecutionWitness {
    ExecutionWitness {
        state: vec![vec![0xf8, 0x51], vec![0x80]],
        codes: vec![vec![0x60, 0x00]],
        keys: vec![vec![1; 32], vec![2; 20]],
        headers: vec![vec![0xf9, 0x02, 0x1a]],
    }
}

#[test]
fn normalization_drops_the_keys_and_keeps_the_rest() {
    let raw = provider_witness();
    let witness = normalize_witness(raw.clone());
    assert!(witness.keys.is_empty());
    assert_eq!(witness.state, raw.state);
    assert_eq!(witness.codes, raw.codes);
    assert_eq!(witness.headers, raw.headers);
}

#[test]
fn normalization_is_idempotent() {
    let once = normalize_witness(provider_witness());
    assert_eq!(normalize_witness(once.clone()), once);
    let empty =
        ExecutionWitness { state: vec![], codes: vec![], keys: vec![], headers: vec![] };
    assert_eq!(normalize_witness(empty.clone()), empty);
}
