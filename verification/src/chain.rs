//! Conversions between the bridge's networks and the networks of the
//! `bitcoin` crate, whose type the bridge reuses wherever addresses and
//! scripts are encoded.

use crate::network::NetworkType;
use vstd::prelude::*;
use vstd::std_specs::convert::FromSpecImpl;

verus! {

/// `bitcoin::Network`, made known to the verifier together with its variants.
/// It is an enum without fields, so the code below builds its values and
/// matches on them directly; nothing is assumed of it beyond its declaration
/// in the `bitcoin` crate.
#[verifier::external_type_specification]
pub struct ExNetwork(bitcoin::Network);

/// The `bitcoin` network that stands for a bridge network: the local
/// development network is treated as regtest, the simulation network as signet.
pub open spec fn chain_of(network: NetworkType) -> bitcoin::Network {
    match network {
        NetworkType::Mainnet => bitcoin::Network::Bitcoin,
        NetworkType::Testnet => bitcoin::Network::Testnet,
        NetworkType::Devnet => bitcoin::Network::Regtest,
        NetworkType::Simnet => bitcoin::Network::Signet,
    }
}

/// The bridge network that a `bitcoin` network is read as. A `bitcoin`
/// network without a counterpart of its own is read as mainnet, so this
/// direction loses information.
pub open spec fn network_of(chain: bitcoin::Network) -> NetworkType {
    match chain {
        bitcoin::Network::Bitcoin => NetworkType::Mainnet,
        bitcoin::Network::Testnet => NetworkType::Testnet,
        bitcoin::Network::Regtest => NetworkType::Devnet,
        bitcoin::Network::Signet => NetworkType::Simnet,
        _ => NetworkType::Mainnet,
    }
}

/// Whether a `bitcoin` network is one of the four that a bridge network maps to.
pub open spec fn has_counterpart(chain: bitcoin::Network) -> bool {
    chain == bitcoin::Network::Bitcoin || chain == bitcoin::Network::Testnet || chain
        == bitcoin::Network::Regtest || chain == bitcoin::Network::Signet
}

impl From<NetworkType> for bitcoin::Network {
    fn from(network_type: NetworkType) -> (chain: bitcoin::Network) {
        match network_type {
            NetworkType::Mainnet => bitcoin::Network::Bitcoin,
            NetworkType::Testnet => bitcoin::Network::Testnet,
            NetworkType::Devnet => bitcoin::Network::Regtest,
            NetworkType::Simnet => bitcoin::Network::Signet,
        }
    }
}

impl FromSpecImpl<NetworkType> for bitcoin::Network {
    open spec fn obeys_from_spec() -> bool {
        true
    }

    open spec fn from_spec(network_type: NetworkType) -> bitcoin::Network {
        chain_of(network_type)
    }
}

impl From<bitcoin::Network> for NetworkType {
    fn from(network: bitcoin::Network) -> (network_type: NetworkType) {
        match network {
            bitcoin::Network::Bitcoin => NetworkType::Mainnet,
            bitcoin::Network::Testnet => NetworkType::Testnet,
            bitcoin::Network::Regtest => NetworkType::Devnet,
            bitcoin::Network::Signet => NetworkType::Simnet,
            _ => NetworkType::Mainnet,
        }
    }
}

impl FromSpecImpl<bitcoin::Network> for NetworkType {
    open spec fn obeys_from_spec() -> bool {
        true
    }

    open spec fn from_spec(network: bitcoin::Network) -> NetworkType {
        network_of(network)
    }
}

/// Going to the `bitcoin` network and back gives the network one started from.
pub proof fn lemma_chain_round_trip(network: NetworkType)
    ensures
        has_counterpart(chain_of(network)),
        network_of(chain_of(network)) == network,
        chain_of(NetworkType::Devnet) == bitcoin::Network::Regtest,
        chain_of(NetworkType::Simnet) == bitcoin::Network::Signet,
{
}

/// A `bitcoin` network without a counterpart is read as mainnet; one with a
/// counterpart comes back unchanged from the round trip through the bridge's
/// type.
pub proof fn lemma_chain_fallback(chain: bitcoin::Network)
    ensures
        !has_counterpart(chain) ==> network_of(chain) == NetworkType::Mainnet,
        has_counterpart(chain) <==> chain_of(network_of(chain)) == chain,
{
}

} // verus!
