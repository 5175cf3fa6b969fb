//! Network identities of the bridge client: the four deployments a process can
//! target, their default service ports, their textual names, their counterparts
//! in the `bitcoin` crate, and the indexer endpoint that serves each of them.

pub mod chain;
pub mod client;
pub mod network;
pub mod order;
pub mod text;
