//! The canonical order of the networks: mainnet, testnet, devnet, simnet.

use crate::network::NetworkType;
use std::cmp::Ordering;
use vstd::prelude::*;
use vstd::std_specs::cmp::PartialOrdSpec;

verus! {

impl NetworkType {
    fn position(&self) -> (at: u8)
        ensures
            at == self.rank(),
    {
        match self {
            NetworkType::Mainnet => 0,
            NetworkType::Testnet => 1,
            NetworkType::Devnet => 2,
            NetworkType::Simnet => 3,
        }
    }
}

impl PartialOrd for NetworkType {
    fn partial_cmp(&self, other: &Self) -> (order: Option<Ordering>) {
        let a: u8 = self.position();
        let b: u8 = other.position();
        if a < b {
            Some(Ordering::Less)
        } else if a == b {
            Some(Ordering::Equal)
        } else {
            Some(Ordering::Greater)
        }
    }
}

impl vstd::std_specs::cmp::PartialOrdSpecImpl for NetworkType {
    open spec fn obeys_partial_cmp_spec() -> bool {
        true
    }

    /// Networks compare as their ranks do.
    open spec fn partial_cmp_spec(&self, other: &Self) -> Option<Ordering> {
        if self.rank() < other.rank() {
            Some(Ordering::Less)
        } else if self.rank() == other.rank() {
            Some(Ordering::Equal)
        } else {
            Some(Ordering::Greater)
        }
    }
}

/// The order is total and strict between distinct networks, and it is the
/// canonical one: mainnet before testnet before devnet before simnet.
pub proof fn lemma_order_canonical(a: NetworkType, b: NetworkType)
    ensures
        a.partial_cmp_spec(&b) is Some,
        a.partial_cmp_spec(&b) == Some(Ordering::Equal) <==> a == b,
        a.partial_cmp_spec(&b) == Some(Ordering::Less) <==> b.partial_cmp_spec(&a) == Some(
            Ordering::Greater,
        ),
        NetworkType::Mainnet.partial_cmp_spec(&NetworkType::Testnet) == Some(Ordering::Less),
        NetworkType::Testnet.partial_cmp_spec(&NetworkType::Devnet) == Some(Ordering::Less),
        NetworkType::Devnet.partial_cmp_spec(&NetworkType::Simnet) == Some(Ordering::Less),
{
}

/// The order is transitive.
pub proof fn lemma_order_transitive(a: NetworkType, b: NetworkType, c: NetworkType)
    requires
        a.partial_cmp_spec(&b) == Some(Ordering::Less),
        b.partial_cmp_spec(&c) == Some(Ordering::Less),
    ensures
        a.partial_cmp_spec(&c) == Some(Ordering::Less),
{
}

} // verus!
