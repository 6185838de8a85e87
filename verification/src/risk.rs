//! Collateral health: how a position's borrowing power compares with its
//! debt, and the two checks built on it.

use vstd::prelude::*;
use crate::math::{checked_add, checked_div, checked_mul};
use crate::model::{LendingError, LendingPool, UserPosition, HEALTH_THRESHOLD};

verus! {

/// The price every asset is quoted at: 1.0, scaled by a million.
pub const ORACLE_PRICE: u64 = 1_000_000;

/// Borrowing power of a deposit: its value at `price`, weighted by the
/// collateral factor as a percentage.
pub open spec fn borrow_limit(deposited: u64, collateral_factor: u8, price: u64) -> int {
    deposited * price * collateral_factor / 100
}

/// The health factor as a percentage of the debt that the borrowing power
/// covers. Without borrowing power it is 0. Every intermediate value must fit
/// 64 bits, and a debt of zero cannot be divided by.
pub open spec fn health_factor_spec(
    deposited: u64,
    borrowed: u64,
    collateral_factor: u8,
    price: u64,
) -> Result<u64, LendingError> {
    let limit = borrow_limit(deposited, collateral_factor, price);
    if deposited * price > u64::MAX || deposited * price * collateral_factor > u64::MAX {
        Err(LendingError::MathOverflow)
    } else if limit == 0 {
        Ok(0)
    } else if limit * 100 > u64::MAX {
        Err(LendingError::MathOverflow)
    } else if borrowed == 0 {
        Err(LendingError::DivisionByZero)
    } else {
        Ok((limit * 100 / (borrowed as int)) as u64)
    }
}

/// Whether a position with this debt is at or above the health threshold. A
/// position without debt is healthy whatever it has deposited.
pub open spec fn is_healthy_spec(
    deposited: u64,
    borrowed: u64,
    collateral_factor: u8,
    price: u64,
) -> Result<bool, LendingError> {
    if borrowed == 0 {
        Ok(true)
    } else {
        match health_factor_spec(deposited, borrowed, collateral_factor, price) {
            Ok(health) => Ok(health >= HEALTH_THRESHOLD),
            Err(e) => Err(e),
        }
    }
}

/// What the check before a borrow of `amount` answers: the health of the
/// position is taken at the debt it would have afterwards.
pub open spec fn borrow_check_spec(
    position: UserPosition,
    pool: LendingPool,
    amount: u64,
) -> Result<(), LendingError> {
    if position.borrowed_amount + amount > u64::MAX {
        Err(LendingError::MathOverflow)
    } else {
        match is_healthy_spec(
            position.deposited_amount,
            (position.borrowed_amount + amount) as u64,
            pool.collateral_factor,
            ORACLE_PRICE,
        ) {
            Ok(healthy) => if healthy {
                Ok(())
            } else {
                Err(LendingError::InsufficientCollateral)
            },
            Err(e) => Err(e),
        }
    }
}

/// What the check before a liquidation answers: the position must be under
/// the health threshold at its present debt.
pub open spec fn liquidation_check_spec(
    position: UserPosition,
    pool: LendingPool,
) -> Result<(), LendingError> {
    match is_healthy_spec(
        position.deposited_amount,
        position.borrowed_amount,
        pool.collateral_factor,
        ORACLE_PRICE,
    ) {
        Ok(healthy) => if healthy {
            Err(LendingError::NotLiquidatable)
        } else {
            Ok(())
        },
        Err(e) => Err(e),
    }
}

/// Computes the health factor of a position. A debt of zero is an error
/// unless the position has no borrowing power: callers that mean to treat a
/// position without debt as healthy use `is_healthy`.
pub fn calculate_health_factor(
    deposited_amount: u64,
    borrowed_amount: u64,
    collateral_factor: u8,
    price: u64,
) -> (r: Result<u64, LendingError>)
    ensures
        r == health_factor_spec(deposited_amount, borrowed_amount, collateral_factor, price),
{
    let collateral_value = checked_mul(deposited_amount, price)?;
    let weighted = checked_mul(collateral_value, collateral_factor as u64)?;
    let limit: u64 = weighted / 100;
    if limit == 0 {
        return Ok(0);
    }
    let scaled = checked_mul(limit, 100)?;
    checked_div(scaled, borrowed_amount)
}

/// Whether a position is at or above the health threshold.
pub fn is_healthy(
    deposited_amount: u64,
    borrowed_amount: u64,
    collateral_factor: u8,
    price: u64,
) -> (r: Result<bool, LendingError>)
    ensures
        r == is_healthy_spec(deposited_amount, borrowed_amount, collateral_factor, price),
{
    if borrowed_amount == 0 {
        return Ok(true);
    }
    let health = calculate_health_factor(deposited_amount, borrowed_amount, collateral_factor, price)?;
    Ok(health >= HEALTH_THRESHOLD)
}

/// The price of the asset with this mint, scaled by a million. Every asset
/// is quoted at 1.0.
pub fn get_oracle_price(mint: [u8; 32]) -> (r: Result<u64, LendingError>)
    ensures
        r == Ok::<u64, LendingError>(ORACLE_PRICE),
{
    Ok(ORACLE_PRICE)
}

/// Decides whether the position may take on `amount` more debt: its health
/// is taken at the debt it would have afterwards.
pub fn check_before_borrow(
    position: &UserPosition,
    pool: &LendingPool,
    amount: u64,
) -> (r: Result<(), LendingError>)
    ensures
        r == borrow_check_spec(*position, *pool, amount),
{
    let price = get_oracle_price(pool.mint)?;
    let debt = checked_add(position.borrowed_amount, amount)?;
    let healthy = is_healthy(position.deposited_amount, debt, pool.collateral_factor, price)?;
    if healthy {
        Ok(())
    } else {
        Err(LendingError::InsufficientCollateral)
    }
}

/// Decides whether the position may be liquidated.
pub fn check_liquidatable(position: &UserPosition, pool: &LendingPool) -> (r: Result<(), LendingError>)
    ensures
        r == liquidation_check_spec(*position, *pool),
{
    let price = get_oracle_price(pool.mint)?;
    let healthy = is_healthy(
        position.deposited_amount,
        position.borrowed_amount,
        pool.collateral_factor,
        price,
    )?;
    if healthy {
        Err(LendingError::NotLiquidatable)
    } else {
        Ok(())
    }
}

} // verus!
