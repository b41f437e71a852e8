//! Bundles that are written to a file: where the file goes and what it is
//! called.
//!
//! The file of a bundle is named
//! `{block_number}_{tx_count}_{megagas}_{guest}.bin` and lies in the
//! configured directory, or in `inputs` where none is configured.

use crate::text::{decimal_digits, decimal_string};
use crate::types::{guest_name, GuestProgram, Network};
use vstd::prelude::*;
use vstd::string::StringExecFns;

verus! {

/// Gas units in one megagas.
pub const GAS_PER_MEGAGAS: u64 = 1_000_000;

/// The configuration of a generator that writes its bundles to files.
/// Made once for an invocation and only read afterwards.
#[derive(Debug, Clone)]
pub struct InputGeneratorConfig {
    pub guest: GuestProgram,
    pub rpc_url: String,
    /// The chain; mainnet where left open.
    pub network: Option<Network>,
    /// The directory of the files; `inputs` where left open.
    pub input_dir: Option<String>,
}

/// What a generation that wrote its bundle to a file reports. A report, not
/// part of what the guest trusts.
#[derive(Debug, Clone, PartialEq, Eq)]
pub struct InputGeneratorResult {
    pub input_file_path: String,
    pub gas_used: u64,
    pub tx_count: u64,
}

/// A generator that writes its bundles to files.
#[derive(Debug, Clone)]
pub struct ZethInputGenerator {
    pub config: InputGeneratorConfig,
}

impl ZethInputGenerator {
    /// A generator with the given configuration.
    pub fn new(config: InputGeneratorConfig) -> (generator: ZethInputGenerator)
        ensures
            generator.config == config,
    {
        ZethInputGenerator { config }
    }

    /// The configuration the generator was made with.
    pub fn get_config(&self) -> (config: &InputGeneratorConfig)
        ensures
            *config == self.config,
    {
        &self.config
    }
}

/// Gas in whole megagas, a started megagas counted as a whole one.
pub open spec fn megagas_rounded_up(gas_used: u64) -> u64 {
    ((gas_used + 999_999) / 1_000_000) as u64
}

/// Gas in whole megagas, a started megagas not counted.
pub open spec fn megagas_rounded_down(gas_used: u64) -> u64 {
    gas_used / 1_000_000
}

/// Rounds gas up to whole megagas. Defined for every amount of gas: the sum
/// in the definition is never formed in 64 bits.
pub fn megagas_ceil(gas_used: u64) -> (megagas: u64)
    ensures
        megagas == megagas_rounded_up(gas_used),
        megagas as int * 1_000_000 >= gas_used,
        (megagas as int - 1) * 1_000_000 < gas_used,
{
    let whole = gas_used / GAS_PER_MEGAGAS;
    if gas_used % GAS_PER_MEGAGAS == 0 {
        whole
    } else {
        whole + 1
    }
}

/// Rounds gas down to whole megagas.
pub fn megagas_floor(gas_used: u64) -> (megagas: u64)
    ensures
        megagas == megagas_rounded_down(gas_used),
        megagas as int * 1_000_000 <= gas_used,
        (megagas as int + 1) * 1_000_000 > gas_used,
{
    gas_used / GAS_PER_MEGAGAS
}

/// The name of the file of a bundle.
pub open spec fn input_file_name_of(
    block_number: u64,
    tx_count: u64,
    megagas: u64,
    guest: GuestProgram,
) -> Seq<char> {
    decimal_digits(block_number as nat) + "_"@ + decimal_digits(tx_count as nat) + "_"@
        + decimal_digits(megagas as nat) + "_"@ + guest_name(guest) + ".bin"@
}

/// Names the file of a bundle after its block number, its transaction count,
/// its gas in megagas and the guest it is for.
pub fn input_file_name(block_number: u64, tx_count: u64, megagas: u64, guest: GuestProgram) -> (name:
    String)
    ensures
        name@ == input_file_name_of(block_number, tx_count, megagas, guest),
{
    let mut name = decimal_string(block_number);
    name.append("_");
    name.append(decimal_string(tx_count).as_str());
    name.append("_");
    name.append(decimal_string(megagas).as_str());
    name.append("_");
    name.append(guest.to_string().as_str());
    name.append(".bin");
    name
}

/// The directory of the files: the configured one, else `inputs`.
pub open spec fn input_directory_of(input_dir: Option<String>) -> Seq<char> {
    match input_dir {
        Some(dir) => dir@,
        None => "inputs"@,
    }
}

/// The directory that the files of a configuration go to.
pub fn input_directory(input_dir: &Option<String>) -> (directory: String)
    ensures
        directory@ == input_directory_of(*input_dir),
{
    match input_dir {
        Some(dir) => dir.clone(),
        None => String::from_str("inputs"),
    }
}

} // verus!
