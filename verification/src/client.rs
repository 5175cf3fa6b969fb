//! Endpoints of the services that the bridge client talks to.

pub mod esplora;
