//! Overflow-checked arithmetic on amounts and the basis-point fee.

use vstd::prelude::*;
use crate::errors::ContractError;

verus! {

/// The highest fee rate: 10000 basis points are the whole amount.
pub const MAX_FEE_BPS: u32 = 10000;

/// The number of basis points in the whole amount.
pub const BPS_DENOMINATOR: i128 = 10000;

/// The fee on `amount` at `fee_bps` basis points, rounded down.
pub open spec fn fee_of(amount: int, fee_bps: int) -> int {
    (amount * fee_bps) / 10000
}

/// What `compute_fee` returns: the inputs are validated first, then the
/// product is checked against the range of `i128`.
pub open spec fn compute_fee_spec(amount: i128, fee_bps: u32) -> Result<i128, ContractError> {
    if amount <= 0 {
        Err(ContractError::InvalidAmount)
    } else if fee_bps > MAX_FEE_BPS {
        Err(ContractError::InvalidFeeBps)
    } else if amount * fee_bps > i128::MAX {
        Err(ContractError::Overflow)
    } else {
        Ok(fee_of(amount as int, fee_bps as int) as i128)
    }
}

/// The fee never exceeds the amount, is below it for every rate under 100%,
/// and is the floor of `amount * fee_bps / 10000`: it differs from the exact
/// quotient by less than one unit.
pub proof fn lemma_fee_bounds(amount: int, fee_bps: int)
    requires
        amount > 0,
        0 <= fee_bps <= 10000,
    ensures
        0 <= fee_of(amount, fee_bps) <= amount,
        fee_bps < 10000 ==> fee_of(amount, fee_bps) < amount,
        fee_bps == 10000 ==> fee_of(amount, fee_bps) == amount,
        fee_bps == 0 ==> fee_of(amount, fee_bps) == 0,
        10000 * fee_of(amount, fee_bps) <= amount * fee_bps < 10000 * (fee_of(amount, fee_bps) + 1),
{
    let p: int = amount * fee_bps;
    assert(0 <= p <= amount * 10000) by (nonlinear_arith)
        requires
            p == amount * fee_bps,
            amount > 0,
            0 <= fee_bps <= 10000,
    ;
    assert(fee_bps < 10000 ==> p < amount * 10000) by (nonlinear_arith)
        requires
            p == amount * fee_bps,
            amount > 0,
            0 <= fee_bps <= 10000,
    ;
    assert(fee_bps == 0 ==> p == 0) by (nonlinear_arith)
        requires
            p == amount * fee_bps,
    ;
    assert(fee_bps == 10000 ==> p == amount * 10000) by (nonlinear_arith)
        requires
            p == amount * fee_bps,
    ;
}

/// A higher rate never gives a lower fee, and a larger amount never does.
pub proof fn lemma_fee_is_monotonic(a1: int, bps1: int, a2: int, bps2: int)
    requires
        0 < a1 <= a2,
        0 <= bps1 <= bps2,
    ensures
        fee_of(a1, bps1) <= fee_of(a2, bps2),
{
    assert(a1 * bps1 <= a2 * bps2) by (nonlinear_arith)
        requires
            0 < a1 <= a2,
            0 <= bps1 <= bps2,
    ;
}

/// Computes the platform fee on `amount` at `fee_bps` basis points.
///
/// Fails with `InvalidAmount` for an amount that is not positive, with
/// `InvalidFeeBps` for a rate above 10000, and with `Overflow` where
/// `amount * fee_bps` does not fit in 128 signed bits.
pub fn compute_fee(amount: i128, fee_bps: u32) -> (r: Result<i128, ContractError>)
    ensures
        r == compute_fee_spec(amount, fee_bps),
        r matches Ok(fee) ==> 0 <= fee <= amount && (fee_bps < MAX_FEE_BPS ==> fee < amount),
{
    if amount <= 0 {
        return Err(ContractError::InvalidAmount);
    }
    if fee_bps > MAX_FEE_BPS {
        return Err(ContractError::InvalidFeeBps);
    }
    proof {
        lemma_fee_bounds(amount as int, fee_bps as int);
    }
    match amount.checked_mul(fee_bps as i128) {
        None => Err(ContractError::Overflow),
        Some(product) => Ok(product / BPS_DENOMINATOR),
    }
}

/// What `checked_sum` returns.
pub open spec fn checked_sum_spec(a: i128, b: i128) -> Result<i128, ContractError> {
    if i128::MIN <= a + b <= i128::MAX {
        Ok((a + b) as i128)
    } else {
        Err(ContractError::Overflow)
    }
}

/// Adds two amounts; fails with `Overflow` where the sum leaves the range of
/// `i128`.
pub fn checked_sum(a: i128, b: i128) -> (r: Result<i128, ContractError>)
    ensures
        r == checked_sum_spec(a, b),
{
    match a.checked_add(b) {
        Some(sum) => Ok(sum),
        None => Err(ContractError::Overflow),
    }
}

} // verus!
