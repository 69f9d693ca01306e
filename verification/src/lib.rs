//! Accounting core of a constant-product exchange: pools of two assets,
//! swaps with a fee and an optional treasury cut, liquidity shares, and a
//! time-weighted price accumulator.
//!
//! Every state transition is computed in full before anything is written, so
//! an operation that fails leaves the state as it was.
//!
//! - [`exchange`]: one pool and what can be done with it.
//! - [`dex`]: all pools and balances, and the operations on them.
//! - [`xcmp`]: transfers to and from other chains.
//! - [`laws`]: what holds of the operations taken together.
//! - [`math`], [`shares`]: the integer square root and the sum of a ledger.
//! - [`mock`]: a small host with fixed accounts and settings.

mod checked;
pub mod dex;
pub mod error;
pub mod exchange;
pub mod laws;
pub mod math;
pub mod mock;
pub mod shares;
pub mod types;
pub mod xcmp;
