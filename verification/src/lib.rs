//! An on-chain strategy orchestrator: it turns an ordered list of asset-swap
//! steps into a queue of self-addressed continuation messages followed by one
//! balance-snapshot invariant check, so that an overall minimum-output bound
//! can be enforced even though each swap's result is unknown until it runs.

pub mod asset;
pub mod contract;
pub mod error;
pub mod msg;
pub mod msgs;
pub mod operations;
pub mod response;
pub mod state;
