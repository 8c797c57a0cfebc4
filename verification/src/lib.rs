//! Verified core of a constant-product automated market maker (AMM) pool.
//!
//! The pool holds two token reserves (`x` and `y`) and a liquidity-provider
//! (LP) mint. The modules here decide, from plain snapshots of the on-chain
//! accounts, whether a deposit or a withdrawal is accepted and which token
//! movements it consists of; the surrounding program performs those
//! movements.
pub mod actions;
pub mod deposit;
pub mod error;
pub mod laws;
pub mod state;
pub mod withdraw;
