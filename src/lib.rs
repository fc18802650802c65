//! Consensus rules and state-sync orchestration for a Proof-of-Authority
//! sidechain that relays events from a checkpoint layer.

pub mod schedule;
pub mod primitives;
pub mod config;
pub mod consensus;
pub mod rlp;
pub mod error;
pub mod event;
pub mod span;
pub mod genesis_contract_client;
pub mod client;
pub mod system_call;
