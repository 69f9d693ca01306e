//! Checked arithmetic on balances and moments, as `sp_arithmetic` offers it.
//!
//! The wrappers in this file are believed, not proved: each states what the
//! operation it calls returns.

use vstd::prelude::*;
use crate::types::{Balance, Moment};

verus! {

/// Calls `CheckedAdd::checked_add` of `sp_arithmetic::traits` on two
/// balances: their sum, or `None` where it leaves the range of a balance.
#[verifier::external_body]
pub(crate) fn checked_add(a: Balance, b: Balance) -> (r: Option<Balance>)
    ensures
        r == (if a + b > Balance::MAX {
            None
        } else {
            Some((a + b) as Balance)
        }),
{
    sp_arithmetic::traits::CheckedAdd::checked_add(&a, &b)
}

/// Calls `CheckedSub::checked_sub` of `sp_arithmetic::traits` on two
/// balances: their difference, or `None` where it would be below zero.
#[verifier::external_body]
pub(crate) fn checked_sub(a: Balance, b: Balance) -> (r: Option<Balance>)
    ensures
        r == (if a < b {
            None
        } else {
            Some((a - b) as Balance)
        }),
{
    sp_arithmetic::traits::CheckedSub::checked_sub(&a, &b)
}

/// Calls `CheckedMul::checked_mul` of `sp_arithmetic::traits` on two
/// balances: their product, or `None` where it leaves the range of a
/// balance.
#[verifier::external_body]
pub(crate) fn checked_mul(a: Balance, b: Balance) -> (r: Option<Balance>)
    ensures
        r == (if a * b > Balance::MAX {
            None
        } else {
            Some((a * b) as Balance)
        }),
{
    sp_arithmetic::traits::CheckedMul::checked_mul(&a, &b)
}

/// Calls `CheckedDiv::checked_div` of `sp_arithmetic::traits` on two
/// balances: the quotient rounded down, or `None` for a divisor of zero.
#[verifier::external_body]
pub(crate) fn checked_div(a: Balance, b: Balance) -> (r: Option<Balance>)
    ensures
        r == (if b == 0 {
            None
        } else {
            Some(a / b)
        }),
{
    sp_arithmetic::traits::CheckedDiv::checked_div(&a, &b)
}

/// Calls `CheckedSub::checked_sub` of `sp_arithmetic::traits` on two
/// moments: the time from `b` to `a`, or `None` where `a` is before `b`.
#[verifier::external_body]
pub(crate) fn checked_sub_moment(a: Moment, b: Moment) -> (r: Option<Moment>)
    ensures
        r == (if a < b {
            None
        } else {
            Some((a - b) as Moment)
        }),
{
    sp_arithmetic::traits::CheckedSub::checked_sub(&a, &b)
}

} // verus!
