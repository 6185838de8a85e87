//! Arithmetic that fails explicitly. No operation here wraps or truncates:
//! a result that does not fit is an error.

use vstd::prelude::*;
use crate::model::LendingError;

verus! {

/// `a + b`, or `MathOverflow` where the sum does not fit 64 bits.
pub open spec fn sum_spec(a: u64, b: u64) -> Result<u64, LendingError> {
    if a + b <= u64::MAX {
        Ok((a + b) as u64)
    } else {
        Err(LendingError::MathOverflow)
    }
}

/// `a - b`, or `MathUnderflow` where the difference would be negative.
pub open spec fn difference_spec(a: u64, b: u64) -> Result<u64, LendingError> {
    if b <= a {
        Ok((a - b) as u64)
    } else {
        Err(LendingError::MathUnderflow)
    }
}

/// `a * b`, or `MathOverflow` where the product does not fit 64 bits.
pub open spec fn product_spec(a: u64, b: u64) -> Result<u64, LendingError> {
    if a * b <= u64::MAX {
        Ok((a * b) as u64)
    } else {
        Err(LendingError::MathOverflow)
    }
}

/// `a / b` rounded down, or `DivisionByZero` where `b` is zero.
pub open spec fn quotient_spec(a: u64, b: u64) -> Result<u64, LendingError> {
    if b != 0 {
        Ok((a / b) as u64)
    } else {
        Err(LendingError::DivisionByZero)
    }
}

/// `a + b` on an index, or `MathOverflow` where the sum does not fit 128 bits.
pub open spec fn wide_sum_spec(a: u128, b: u128) -> Result<u128, LendingError> {
    if a + b <= u128::MAX {
        Ok((a + b) as u128)
    } else {
        Err(LendingError::MathOverflow)
    }
}

pub fn checked_add(a: u64, b: u64) -> (r: Result<u64, LendingError>)
    ensures
        r == sum_spec(a, b),
{
    match a.checked_add(b) {
        Some(sum) => Ok(sum),
        None => Err(LendingError::MathOverflow),
    }
}

pub fn checked_sub(a: u64, b: u64) -> (r: Result<u64, LendingError>)
    ensures
        r == difference_spec(a, b),
{
    match a.checked_sub(b) {
        Some(difference) => Ok(difference),
        None => Err(LendingError::MathUnderflow),
    }
}

pub fn checked_mul(a: u64, b: u64) -> (r: Result<u64, LendingError>)
    ensures
        r == product_spec(a, b),
{
    match a.checked_mul(b) {
        Some(product) => Ok(product),
        None => Err(LendingError::MathOverflow),
    }
}

pub fn checked_div(a: u64, b: u64) -> (r: Result<u64, LendingError>)
    ensures
        r == quotient_spec(a, b),
{
    if b != 0 {
        Ok(a / b)
    } else {
        Err(LendingError::DivisionByZero)
    }
}

pub fn checked_add_wide(a: u128, b: u128) -> (r: Result<u128, LendingError>)
    ensures
        r == wide_sum_spec(a, b),
{
    match a.checked_add(b) {
        Some(sum) => Ok(sum),
        None => Err(LendingError::MathOverflow),
    }
}

} // verus!
