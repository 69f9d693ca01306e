//! Reasons for which an operation is rejected.

use vstd::prelude::*;

verus! {

/// Why the exchange rejected an operation.
#[derive(Clone, Copy, PartialEq, Eq, Debug, Structural)]
pub enum Error {
    /// Given exchange does not exist.
    ExchangeNotExists,
    /// Given exchange already exists.
    ExchangeAlreadyExists,
    /// Exchange between the same assets is forbidden.
    InvalidExchange,
    /// The invariant should be zero before a pool is launched.
    InvariantNotNull,
    /// The total of shares should be zero before a pool is launched.
    TotalSharesNotNull,
    /// First asset amount is below expectation.
    FirstAssetAmountBelowExpectation,
    /// Second asset amount is below expectation.
    SecondAssetAmountBelowExpectation,
    /// The pool holds less than the amount asked for.
    InsufficientPool,
    /// The amount of shares must be greater than zero.
    InvalidShares,
    /// Not enough shares to divest.
    InsufficientShares,
    /// The account owns no share of the pool.
    DoesNotOwnShare,
    /// The account holds too little of the main network currency.
    InsufficientMainNetworkAssetAmount,
    /// The account holds too little of the parachain asset.
    InsufficientParachainAssetAmount,
    /// Amount of main network currency provided is below the minimum.
    MainNetworkAssetAmountBelowMin,
    /// Amount of parachain asset provided is below the minimum.
    ParachainAssetAmountBelowMin,
    /// An addition left the range of a balance.
    OverflowOccured,
    /// A subtraction went below zero.
    UnderflowOccured,
    /// A multiplication left the range of a balance, or a division had no
    /// result.
    UnderflowOrOverflowOccured,
}

} // verus!
