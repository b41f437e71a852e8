//! The choices made before a generation starts, and what a generation
//! reports back.

use vstd::prelude::*;
use vstd::string::StringExecFns;

verus! {

/// The chain whose rules a block is read under.
#[derive(Debug, Clone, Copy, PartialEq, Eq, Structural)]
pub enum Network {
    Mainnet,
    Sepolia,
}

impl Default for Network {
    /// Mainnet, where nothing else was chosen.
    fn default() -> (network: Network)
        ensures
            network == Network::Mainnet,
    {
        Network::Mainnet
    }
}

/// The chain to use where the configuration may leave it open.
pub open spec fn resolved_network(network: Option<Network>) -> Network {
    match network {
        Some(chosen) => chosen,
        None => Network::Mainnet,
    }
}

/// Resolves the network of a generation: the one chosen, else mainnet.
pub fn resolve_network(network: Option<Network>) -> (resolved: Network)
    ensures
        resolved == resolved_network(network),
{
    match network {
        Some(chosen) => chosen,
        None => Network::Mainnet,
    }
}

/// The guest program a bundle is made for. The set is closed: a host and a
/// guest agree on the variant before either runs.
#[derive(Debug, Clone, Copy, PartialEq, Eq, Structural)]
pub enum GuestProgram {
    Rsp,
    Zeth,
}

/// The name of a guest program as it appears in file names.
pub open spec fn guest_name(guest: GuestProgram) -> Seq<char> {
    match guest {
        GuestProgram::Rsp => seq!['r', 's', 'p'],
        GuestProgram::Zeth => seq!['z', 'e', 't', 'h'],
    }
}

/// The guest to use where the command line leaves it open.
pub open spec fn resolved_guest(guest: Option<GuestProgram>) -> GuestProgram {
    match guest {
        Some(chosen) => chosen,
        None => GuestProgram::Zeth,
    }
}

/// Resolves the guest of a generation: the one chosen, else zeth.
pub fn resolve_guest(guest: Option<GuestProgram>) -> (resolved: GuestProgram)
    ensures
        resolved == resolved_guest(guest),
{
    match guest {
        Some(chosen) => chosen,
        None => GuestProgram::Zeth,
    }
}

impl GuestProgram {
    /// The lower-case name of the guest program.
    pub fn to_string(&self) -> (name: String)
        ensures
            name@ == guest_name(*self),
    {
        proof {
            reveal_strlit("rsp");
            reveal_strlit("zeth");
        }
        let name = match self {
            GuestProgram::Rsp => String::from_str("rsp"),
            GuestProgram::Zeth => String::from_str("zeth"),
        };
        assert(name@ =~= guest_name(*self));
        name
    }
}

/// The arguments of the input generator's command line.
#[derive(Debug, Clone)]
pub struct InputGenArgs {
    pub block_number: u64,
    pub network: Network,
    pub rpc_url: String,
    pub input_dir: Option<String>,
    pub guest: Option<GuestProgram>,
}

/// A generator that hands the bundle's bytes back to its caller.
#[derive(Debug, Clone)]
pub struct InputGenerator {
    pub rpc_url: String,
    pub network: Network,
}

impl InputGenerator {
    /// A generator for the provider at `rpc_url` and the chain `network`.
    pub fn new(rpc_url: String, network: Network) -> (generator: InputGenerator)
        ensures
            generator.rpc_url == rpc_url,
            generator.network == network,
    {
        InputGenerator { rpc_url, network }
    }
}

/// What a generation that returns the bytes reports. A report, not part of
/// what the guest trusts.
#[derive(Debug, Clone, PartialEq, Eq)]
pub struct InputGeneratorResult {
    pub guest: GuestProgram,
    /// The serialized bundle.
    pub input: Vec<u8>,
    pub gas_used: u64,
    pub tx_count: u64,
}

} // verus!
