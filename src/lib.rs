//! Oracle registry: registration, staking, reputation, liveness and
//! slashing rules for data-serving oracles, with every transition proved
//! against its contract.
pub mod events;
pub mod laws;
pub mod registry;
pub mod state;
