//! The protocol document: which variant of the protocol's constants the
//! node runs with.

use crate::text::same_text;
use vstd::prelude::*;
use vstd::string::StringExecFns;

verus! {

/// The name of the main network's constants.
pub const MAINNET: &'static str = "mainnet";

/// The name of the constants for small test networks.
pub const MINIMAL: &'static str = "minimal";

/// The name of the constants for tests between clients.
pub const INTEROP: &'static str = "interop";

/// Whether `name` is the name of a protocol variant.
pub open spec fn is_spec_name(name: Seq<char>) -> bool {
    name == MAINNET@ || name == MINIMAL@ || name == INTEROP@
}

/// The parameters in which the protocol variants differ.
#[derive(Clone, Copy, Debug, PartialEq, Eq, Structural)]
pub struct ChainSpec {
    pub target_committee_size: u64,
    pub shuffle_round_count: u8,
    pub min_genesis_active_validator_count: u64,
    pub seconds_per_slot: u64,
    pub network_id: u8,
}

/// The parameters of the main network.
pub open spec fn mainnet_spec() -> ChainSpec {
    ChainSpec {
        target_committee_size: 128,
        shuffle_round_count: 90,
        min_genesis_active_validator_count: 65536,
        seconds_per_slot: 6,
        network_id: 1,
    }
}

/// The parameters of small test networks: the main network's with small
/// committees, a short shuffle and an early genesis.
pub open spec fn minimal_spec() -> ChainSpec {
    ChainSpec {
        target_committee_size: 4,
        shuffle_round_count: 10,
        min_genesis_active_validator_count: 64,
        network_id: 2,
        ..mainnet_spec()
    }
}

/// The parameters for tests between clients: the main network's with small
/// committees, a short shuffle and slow slots.
pub open spec fn interop_spec() -> ChainSpec {
    ChainSpec {
        target_committee_size: 4,
        shuffle_round_count: 10,
        seconds_per_slot: 12,
        network_id: 13,
        ..mainnet_spec()
    }
}

/// The parameters of the variant called `name`; those of the main network
/// where `name` is no variant.
pub open spec fn spec_for_name(name: Seq<char>) -> ChainSpec {
    if name == MINIMAL@ {
        minimal_spec()
    } else if name == INTEROP@ {
        interop_spec()
    } else {
        mainnet_spec()
    }
}

impl ChainSpec {
    /// The parameters of the main network.
    pub fn mainnet() -> (spec: ChainSpec)
        ensures
            spec == mainnet_spec(),
    {
        ChainSpec {
            target_committee_size: 128,
            shuffle_round_count: 90,
            min_genesis_active_validator_count: 65536,
            seconds_per_slot: 6,
            network_id: 1,
        }
    }

    /// The parameters of small test networks.
    pub fn minimal() -> (spec: ChainSpec)
        ensures
            spec == minimal_spec(),
    {
        ChainSpec {
            target_committee_size: 4,
            shuffle_round_count: 10,
            min_genesis_active_validator_count: 64,
            network_id: 2,
            ..ChainSpec::mainnet()
        }
    }

    /// The parameters for tests between clients.
    pub fn interop() -> (spec: ChainSpec)
        ensures
            spec == interop_spec(),
    {
        ChainSpec {
            target_committee_size: 4,
            shuffle_round_count: 10,
            seconds_per_slot: 12,
            network_id: 13,
            ..ChainSpec::mainnet()
        }
    }
}

/// The protocol document.
#[derive(Clone, Debug, PartialEq, Eq)]
pub struct Eth2Config {
    /// The name of the set of constants that the node was built for.
    pub spec_constants: String,
    /// The parameters of the protocol variant.
    pub spec: ChainSpec,
}

/// An `Eth2Config` with its name as a sequence of characters.
pub struct Eth2ConfigView {
    pub spec_constants: Seq<char>,
    pub spec: ChainSpec,
}

impl View for Eth2Config {
    type V = Eth2ConfigView;

    open spec fn view(&self) -> Eth2ConfigView {
        Eth2ConfigView { spec_constants: self.spec_constants@, spec: self.spec }
    }
}

/// The protocol document of the variant called `name`.
pub open spec fn eth2_config_for(name: Seq<char>) -> Eth2ConfigView {
    Eth2ConfigView { spec_constants: name, spec: spec_for_name(name) }
}

impl Eth2Config {
    /// The document of the main network.
    pub fn mainnet() -> (config: Eth2Config)
        ensures
            config@ == eth2_config_for(MAINNET@),
    {
        proof {
            lemma_spec_names_differ();
        }
        Eth2Config { spec_constants: String::from_str(MAINNET), spec: ChainSpec::mainnet() }
    }

    /// The document of small test networks.
    pub fn minimal() -> (config: Eth2Config)
        ensures
            config@ == eth2_config_for(MINIMAL@),
    {
        Eth2Config { spec_constants: String::from_str(MINIMAL), spec: ChainSpec::minimal() }
    }

    /// The document for tests between clients.
    pub fn interop() -> (config: Eth2Config)
        ensures
            config@ == eth2_config_for(INTEROP@),
    {
        proof {
            lemma_spec_names_differ();
        }
        Eth2Config { spec_constants: String::from_str(INTEROP), spec: ChainSpec::interop() }
    }

    /// The document of the variant called `name`, where `name` is one of
    /// `mainnet`, `minimal` and `interop`; `None` for any other name.
    pub fn for_spec_name(name: &str) -> (config: Option<Eth2Config>)
        ensures
            is_spec_name(name@) ==> config is Some && config->0@ == eth2_config_for(name@),
            !is_spec_name(name@) ==> config is None,
    {
        if same_text(name, MAINNET) {
            Some(Eth2Config::mainnet())
        } else if same_text(name, MINIMAL) {
            Some(Eth2Config::minimal())
        } else if same_text(name, INTEROP) {
            Some(Eth2Config::interop())
        } else {
            None
        }
    }

    /// A copy of this document.
    pub fn duplicate(&self) -> (copy: Eth2Config)
        ensures
            copy@ == self@,
    {
        Eth2Config { spec_constants: self.spec_constants.clone(), spec: self.spec }
    }
}

/// The three names of the protocol variants are three different texts.
pub proof fn lemma_spec_names_differ()
    ensures
        MAINNET@ != MINIMAL@,
        MAINNET@ != INTEROP@,
        MINIMAL@ != INTEROP@,
{
    reveal_strlit("mainnet");
    reveal_strlit("minimal");
    reveal_strlit("interop");
    assert(MAINNET@[1] == 'a');
    assert(MINIMAL@[1] == 'i');
    assert(INTEROP@[1] == 'n');
}

} // verus!
