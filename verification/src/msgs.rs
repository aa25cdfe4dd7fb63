//! The swap-operation variants: each synthesizes exactly one outbound
//! execution message from a given input asset amount and desired output
//! asset.

pub mod liquidity_pool;
pub mod market;
