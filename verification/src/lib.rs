//! Accounting and pricing core of a decentralized exchange: an automated
//! market maker liquidity pool, a constant-product swap engine, and a
//! leveraged perpetual-futures market with margin, funding, and liquidation
//! logic.
//!
//! Every operation is a pure, deterministic function of its explicit inputs
//! and the entity's current state. Persistent storage, token transfers and
//! the price oracle are external collaborators: the host reads the state,
//! calls these functions with plain values, and commits the results.

pub mod liquidity_pool;
pub mod math;
pub mod perpetual_trading;
pub mod swap;
