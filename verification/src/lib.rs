//! The deterministic parts of a two-parachain, one-relay-chain test network
//! for cross-chain NFT transfers: balance units and deposits, the mock core
//! assigner queue, validator reward bookkeeping, dispute and slashing logs,
//! sibling sovereign accounts, and the fixed parameters of the network.

pub mod currency;
pub mod accounts;
pub mod mock_assigner;
pub mod rewards;
pub mod disputes;
pub mod events;
pub mod relay_mock;
pub mod config;
pub mod setup;
pub mod registration;
