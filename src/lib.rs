//! Settlement engine for provably fair chance games that share one pooled
//! liquidity reserve.
//!
//! Every public operation works on plain values: the pool record together with
//! the funds its account physically holds, the per-bet session record, and the
//! host facts an operation needs (the current slot or time, the rent-exempt
//! minimum, a referrer's balance). Each operation either returns `Ok` with the
//! new state or returns an error and leaves every record as it was.

pub mod error;
pub mod math;
pub mod keys;
pub mod games;
pub mod session;
pub mod risk;
pub mod entropy;
pub mod ledger;
pub mod governance;
