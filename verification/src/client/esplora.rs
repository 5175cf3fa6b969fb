//! The indexer that serves chain data for each network.

use crate::network::NetworkType;
use vstd::prelude::*;

verus! {

/// Base URL of the indexer that runs beside a local development node.
pub const DEVNET_ESPLORA_URL: &'static str = "http://localhost:8094/devnet/api/";

/// Base URL of the hosted indexer.
pub const NEXUSVM_SIMNET_ESPLORA_URL: &'static str = "https://esplora.nexusvmnet.org";

/// The indexer's base URL for each network. Only the development network has
/// an indexer of its own; mainnet, testnet and simnet share the hosted one
/// until each of them is given its own.
pub open spec fn esplora_url(network: NetworkType) -> Seq<char> {
    match network {
        NetworkType::Mainnet => NEXUSVM_SIMNET_ESPLORA_URL@,
        NetworkType::Testnet => NEXUSVM_SIMNET_ESPLORA_URL@,
        NetworkType::Devnet => DEVNET_ESPLORA_URL@,
        NetworkType::Simnet => NEXUSVM_SIMNET_ESPLORA_URL@,
    }
}

pub fn get_esplora_url(network: NetworkType) -> (url: &'static str)
    ensures
        url@ == esplora_url(network),
{
    match network {
        NetworkType::Mainnet => NEXUSVM_SIMNET_ESPLORA_URL,
        NetworkType::Testnet => NEXUSVM_SIMNET_ESPLORA_URL,
        NetworkType::Devnet => DEVNET_ESPLORA_URL,
        NetworkType::Simnet => NEXUSVM_SIMNET_ESPLORA_URL,
    }
}

/// The development network is the only one with an indexer of its own: every
/// other network resolves to the hosted indexer, which is a different address.
pub proof fn lemma_only_devnet_is_local(network: NetworkType)
    ensures
        network != NetworkType::Devnet ==> esplora_url(network) == esplora_url(
            NetworkType::Mainnet,
        ),
        esplora_url(network) == esplora_url(NetworkType::Devnet) <==> network
            == NetworkType::Devnet,
{
    reveal_strlit("http://localhost:8094/devnet/api/");
    reveal_strlit("https://esplora.nexusvmnet.org");
    assert(DEVNET_ESPLORA_URL@.len() != NEXUSVM_SIMNET_ESPLORA_URL@.len());
}

} // verus!
