//! A token-swap broker: it runs a trader's swap over one or more routes of
//! hops against liquidity-provider backends, takes a profit-based and a flat
//! fee, optionally converts the fee into a reference token, and settles only
//! when the broker's own balances show exactly the planned debit and at least
//! the guaranteed minimum.
use vstd::prelude::*;

pub mod adapter;
pub mod arith;
pub mod broker;
pub mod engine;
pub mod fees;
pub mod routes;
pub mod settings;
pub mod soroswap;
pub mod settlement;
pub mod types;

verus! {

} // verus!
