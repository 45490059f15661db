//! Amount arithmetic: the basis-point fee and the overflow-checked steps
//! between amounts.

use crate::errors::ContractError;
use vstd::prelude::*;

verus! {

/// One hundred percent, in basis points.
pub const MAX_FEE_BPS: u32 = 10000;

/// Whether an integer is a value of the 128-bit signed amount domain.
pub open spec fn in_amount_range(x: int) -> bool {
    i128::MIN <= x <= i128::MAX
}

/// The quotient of `x` by a positive `d`, rounded toward zero.
pub open spec fn div_toward_zero(x: int, d: int) -> int
    recommends
        d > 0,
{
    if x >= 0 {
        x / d
    } else {
        -((-x) / d)
    }
}

/// The fee on `amount` at a rate of `fee_bps` basis points:
/// `amount * fee_bps / 10000`, rounded toward zero.
pub open spec fn fee_of(amount: int, fee_bps: int) -> int {
    div_toward_zero(amount * fee_bps, 10000)
}

/// Whether the fee on `amount` at `fee_bps` can be computed: the product
/// `amount * fee_bps` has to lie in the amount domain.
pub open spec fn fee_computable(amount: int, fee_bps: int) -> bool {
    in_amount_range(amount * fee_bps)
}

/// Tells whether a fee rate is at most one hundred percent.
pub fn fee_bps_valid(fee_bps: u32) -> (r: bool)
    ensures
        r == (fee_bps <= MAX_FEE_BPS),
{
    fee_bps <= MAX_FEE_BPS
}

/// Computes the fee on `amount` at a rate of `fee_bps` basis points, or
/// `Overflow` if the product leaves the amount domain.
pub fn calculate_fee(amount: i128, fee_bps: u32) -> (r: Result<i128, ContractError>)
    ensures
        r == if fee_computable(amount as int, fee_bps as int) {
            Ok::<i128, ContractError>(fee_of(amount as int, fee_bps as int) as i128)
        } else {
            Err(ContractError::Overflow)
        },
        fee_computable(amount as int, fee_bps as int) ==> in_amount_range(
            fee_of(amount as int, fee_bps as int),
        ),
        amount > 0 && fee_bps <= MAX_FEE_BPS && r is Ok ==> r->Ok_0 == (amount * fee_bps) / 10000
            && 0 <= r->Ok_0 <= amount,
{
    proof {
        if amount > 0 && fee_bps <= MAX_FEE_BPS {
            lemma_fee_bounds(amount as int, fee_bps as int);
        }
    }
    let rate: i128 = fee_bps as i128;
    match amount.checked_mul(rate) {
        Some(product) => {
            proof {
                lemma_quotient_in_range(product as int);
            }
            match product.checked_div(10000) {
                Some(fee) => Ok(fee),
                None => Err(ContractError::Overflow),
            }
        },
        None => Err(ContractError::Overflow),
    }
}

/// Adds two amounts, or `Overflow` if the sum leaves the amount domain.
pub fn checked_sum(a: i128, b: i128) -> (r: Result<i128, ContractError>)
    ensures
        r == if in_amount_range(a + b) {
            Ok::<i128, ContractError>((a + b) as i128)
        } else {
            Err(ContractError::Overflow)
        },
{
    match a.checked_add(b) {
        Some(sum) => Ok(sum),
        None => Err(ContractError::Overflow),
    }
}

/// Subtracts `b` from `a`, or `Overflow` if the difference leaves the
/// amount domain.
pub fn checked_difference(a: i128, b: i128) -> (r: Result<i128, ContractError>)
    ensures
        r == if in_amount_range(a - b) {
            Ok::<i128, ContractError>((a - b) as i128)
        } else {
            Err(ContractError::Overflow)
        },
{
    match a.checked_sub(b) {
        Some(difference) => Ok(difference),
        None => Err(ContractError::Overflow),
    }
}

/// Gives the id after `counter`, or `Overflow` at the end of the id range.
pub fn next_id(counter: u64) -> (r: Result<u64, ContractError>)
    ensures
        r == if counter < u64::MAX {
            Ok::<u64, ContractError>((counter + 1) as u64)
        } else {
            Err(ContractError::Overflow)
        },
{
    match counter.checked_add(1) {
        Some(id) => Ok(id),
        None => Err(ContractError::Overflow),
    }
}

/// A value of the amount domain, divided by 10000 and rounded toward zero,
/// is a value of the amount domain, and no further from zero.
pub proof fn lemma_quotient_in_range(x: int)
    requires
        in_amount_range(x),
    ensures
        in_amount_range(div_toward_zero(x, 10000)),
        x >= 0 ==> 0 <= div_toward_zero(x, 10000) <= x,
        x <= 0 ==> x <= div_toward_zero(x, 10000) <= 0,
{
    if x >= 0 {
        assert(0 <= x / 10000 <= x) by (nonlinear_arith)
            requires
                x >= 0,
        ;
    } else {
        let y = -x;
        assert(0 <= y / 10000 <= y) by (nonlinear_arith)
            requires
                y >= 0,
        ;
    }
}

/// For a positive amount and a rate of at most one hundred percent, the fee
/// is the floor of `amount * fee_bps / 10000`, is not negative and does not
/// exceed the amount.
pub proof fn lemma_fee_bounds(amount: int, fee_bps: int)
    requires
        amount > 0,
        0 <= fee_bps <= 10000,
    ensures
        fee_of(amount, fee_bps) == (amount * fee_bps) / 10000,
        0 <= fee_of(amount, fee_bps) <= amount,
{
    assert(0 <= amount * fee_bps <= amount * 10000) by (nonlinear_arith)
        requires
            amount > 0,
            0 <= fee_bps <= 10000,
    ;
    let p = amount * fee_bps;
    assert(0 <= p / 10000 <= amount) by (nonlinear_arith)
        requires
            0 <= p <= amount * 10000,
    ;
}

} // verus!
