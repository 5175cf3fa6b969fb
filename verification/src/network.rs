//! The network a bridge process is configured for, and the service ports that
//! each network uses by default.

use vstd::prelude::*;

verus! {

/// The deployments of the bridge, declared in their canonical order.
#[derive(Clone, Copy, Debug, PartialEq, Eq, Structural, Hash, Ord)]
pub enum NetworkType {
    Mainnet,
    Testnet,
    Devnet,
    Simnet,
}

impl NetworkType {
    /// Position of a network in the canonical order.
    pub open spec fn rank(self) -> nat {
        match self {
            NetworkType::Mainnet => 0,
            NetworkType::Testnet => 1,
            NetworkType::Devnet => 2,
            NetworkType::Simnet => 3,
        }
    }

    /// Every network, in canonical order.
    pub open spec fn all() -> Seq<NetworkType> {
        seq![
            NetworkType::Mainnet,
            NetworkType::Testnet,
            NetworkType::Devnet,
            NetworkType::Simnet,
        ]
    }

    /// The RPC port a node of this network listens on unless told otherwise.
    pub open spec fn rpc_port(self) -> u16 {
        match self {
            NetworkType::Mainnet => 16110,
            NetworkType::Testnet => 16210,
            NetworkType::Simnet => 16510,
            NetworkType::Devnet => 16610,
        }
    }

    /// The port of the binary-encoded RPC service.
    pub open spec fn borsh_rpc_port(self) -> u16 {
        match self {
            NetworkType::Mainnet => 17110,
            NetworkType::Testnet => 17210,
            NetworkType::Simnet => 17510,
            NetworkType::Devnet => 17610,
        }
    }

    /// The port of the JSON-encoded RPC service.
    pub open spec fn json_rpc_port(self) -> u16 {
        match self {
            NetworkType::Mainnet => 18110,
            NetworkType::Testnet => 18210,
            NetworkType::Simnet => 18510,
            NetworkType::Devnet => 18610,
        }
    }

    pub fn default_rpc_port(&self) -> (port: u16)
        ensures
            port == self.rpc_port(),
    {
        match self {
            NetworkType::Mainnet => 16110,
            NetworkType::Testnet => 16210,
            NetworkType::Simnet => 16510,
            NetworkType::Devnet => 16610,
        }
    }

    pub fn default_borsh_rpc_port(&self) -> (port: u16)
        ensures
            port == self.borsh_rpc_port(),
    {
        match self {
            NetworkType::Mainnet => 17110,
            NetworkType::Testnet => 17210,
            NetworkType::Simnet => 17510,
            NetworkType::Devnet => 17610,
        }
    }

    pub fn default_json_rpc_port(&self) -> (port: u16)
        ensures
            port == self.json_rpc_port(),
    {
        match self {
            NetworkType::Mainnet => 18110,
            NetworkType::Testnet => 18210,
            NetworkType::Simnet => 18510,
            NetworkType::Devnet => 18610,
        }
    }

    /// All four networks, in canonical order. Each call hands out a fresh
    /// sequence, so a walk over the networks can be started again at will.
    pub fn iter() -> (networks: Vec<NetworkType>)
        ensures
            networks@ == Self::all(),
    {
        let networks = vec![
            NetworkType::Mainnet,
            NetworkType::Testnet,
            NetworkType::Devnet,
            NetworkType::Simnet,
        ];
        assert(networks@ =~= Self::all());
        networks
    }
}

/// The three port tables never collide: no two services of any two networks
/// share a default port, and the three services of one network lie exactly
/// one thousand apart.
pub proof fn lemma_ports_distinct(a: NetworkType, b: NetworkType)
    ensures
        a.borsh_rpc_port() == a.rpc_port() + 1000,
        a.json_rpc_port() == a.rpc_port() + 2000,
        a.rpc_port() == b.rpc_port() <==> a == b,
        a.borsh_rpc_port() == b.borsh_rpc_port() <==> a == b,
        a.json_rpc_port() == b.json_rpc_port() <==> a == b,
        a.rpc_port() != b.borsh_rpc_port(),
        a.rpc_port() != b.json_rpc_port(),
        a.borsh_rpc_port() != b.json_rpc_port(),
{
}

/// The enumeration holds each network exactly once, at the index that is its
/// rank in the canonical order.
pub proof fn lemma_enumeration_complete(n: NetworkType)
    ensures
        NetworkType::all().len() == 4,
        NetworkType::all().no_duplicates(),
        NetworkType::all().contains(n),
        n.rank() < 4,
        NetworkType::all()[n.rank() as int] == n,
        forall|i: int, j: int|
            0 <= i < j < 4 ==> (#[trigger] NetworkType::all()[i]).rank() < (
            #[trigger] NetworkType::all()[j]).rank(),
{
    let all = NetworkType::all();
    assert(all[n.rank() as int] == n);
}

} // verus!
