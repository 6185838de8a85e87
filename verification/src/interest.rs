//! Interest accrual: the borrow rate follows the pool's utilization, and
//! each accrual adds the simple interest of the elapsed time to the debt and
//! to the two indices.

use vstd::prelude::*;
use crate::math::{checked_add, checked_add_wide, checked_div, checked_mul};
use crate::model::{LendingError, LendingPool, INDEX_SCALE, SECONDS_PER_YEAR};

verus! {

/// Share of the supply that is lent out, as a whole percentage.
pub open spec fn utilization(pool: LendingPool) -> int {
    pool.total_borrowed * 100 / (pool.total_supply as int)
}

/// Rate added per point of utilization: 10 up to 50 points, 20 up to 80,
/// 30 above.
pub open spec fn slope_spec(utilization: int) -> int {
    if utilization <= 50 {
        10
    } else if utilization <= 80 {
        20
    } else {
        30
    }
}

/// The annualized borrow rate: the base rate plus the slope for each point
/// of utilization.
pub open spec fn interest_rate_spec(pool: LendingPool) -> Result<u64, LendingError> {
    let used = utilization(pool);
    if pool.total_borrowed * 100 > u64::MAX {
        Err(LendingError::MathOverflow)
    } else if pool.total_supply == 0 {
        Err(LendingError::DivisionByZero)
    } else if pool.base_rate + used * slope_spec(used) > u64::MAX {
        Err(LendingError::MathOverflow)
    } else {
        Ok((pool.base_rate + used * slope_spec(used)) as u64)
    }
}

/// Seconds from the pool's last accrual to `now`; zero or less where `now`
/// is not later.
pub open spec fn elapsed_spec(pool: LendingPool, now: i64) -> int {
    now - pool.last_update_time
}

/// Whether an accrual at `now` has nothing to do: no time has passed, nothing
/// is lent out, or nothing is supplied.
pub open spec fn accrual_idle(pool: LendingPool, now: i64) -> bool {
    elapsed_spec(pool, now) <= 0 || pool.total_borrowed == 0 || pool.total_supply == 0
}

/// Simple interest on the whole debt at `rate` for the time up to `now`,
/// rounded down.
pub open spec fn interest_due(pool: LendingPool, rate: u64, now: i64) -> int {
    pool.total_borrowed * rate * elapsed_spec(pool, now) / (SECONDS_PER_YEAR as int)
}

/// The pool after an accrual at `now`. The interest is added to the debt,
/// each index grows by the interest per unit of its total, and the time of
/// the last accrual becomes `now`. A product or sum that does not fit its
/// width is an overflow.
pub open spec fn accrue_spec(pool: LendingPool, now: i64) -> Result<LendingPool, LendingError> {
    if accrual_idle(pool, now) {
        Ok(pool)
    } else {
        match interest_rate_spec(pool) {
            Err(e) => Err(e),
            Ok(rate) => {
                let interest = interest_due(pool, rate, now);
                let debt = pool.total_borrowed + interest;
                let supply_growth = interest * INDEX_SCALE / (pool.total_supply as int);
                let borrow_growth = interest * INDEX_SCALE / debt;
                if pool.total_borrowed * rate * elapsed_spec(pool, now) > u64::MAX
                    || debt > u64::MAX
                    || interest * INDEX_SCALE > u64::MAX
                    || pool.liquidity_index + supply_growth > u128::MAX
                    || pool.borrow_index + borrow_growth > u128::MAX {
                    Err(LendingError::MathOverflow)
                } else {
                    Ok(
                        LendingPool {
                            total_borrowed: debt as u64,
                            liquidity_index: (pool.liquidity_index + supply_growth) as u128,
                            borrow_index: (pool.borrow_index + borrow_growth) as u128,
                            last_update_time: now,
                            ..pool
                        },
                    )
                }
            },
        }
    }
}

/// The interest that an accrual at `now` adds to the pool's debt, zero where
/// the accrual fails.
pub open spec fn accrued_interest(pool: LendingPool, now: i64) -> int {
    match accrue_spec(pool, now) {
        Ok(accrued) => accrued.total_borrowed - pool.total_borrowed,
        Err(_) => 0,
    }
}

/// Computes the annualized borrow rate of the pool.
pub fn calculate_interest_rate(pool: &LendingPool) -> (r: Result<u64, LendingError>)
    ensures
        r == interest_rate_spec(*pool),
{
    let scaled = checked_mul(pool.total_borrowed, 100)?;
    let used = checked_div(scaled, pool.total_supply)?;
    let slope: u64 = if used <= 50 {
        10
    } else if used <= 80 {
        20
    } else {
        30
    };
    match checked_mul(used, slope) {
        Ok(variable) => checked_add(pool.base_rate, variable),
        Err(e) => Err(e),
    }
}

proof fn lemma_product_grows(a: int, b: int)
    requires
        a >= 0,
        b >= 1,
    ensures
        a * b >= a,
{
    assert(a * b >= a) by (nonlinear_arith)
        requires
            a >= 0,
            b >= 1,
    ;
}

/// Brings the pool's debt and indices up to `now`.
///
/// Nothing changes where no time has passed since the last accrual or
/// nothing is lent out. On an error the pool is left as it was.
pub fn accrue_interest(pool: &mut LendingPool, now: i64) -> (r: Result<(), LendingError>)
    ensures
        match accrue_spec(*old(pool), now) {
            Ok(accrued) => r.is_ok() && *final(pool) == accrued,
            Err(e) => r == Err::<(), LendingError>(e) && *final(pool) == *old(pool),
        },
        old(pool).total_borrowed == 0 ==> r.is_ok() && *final(pool) == *old(pool),
        now <= old(pool).last_update_time ==> r.is_ok() && *final(pool) == *old(pool),
        final(pool).total_supply == old(pool).total_supply,
        final(pool).total_borrowed >= old(pool).total_borrowed,
        final(pool).liquidity_index >= old(pool).liquidity_index,
        final(pool).borrow_index >= old(pool).borrow_index,
        final(pool).last_update_time >= old(pool).last_update_time,
        old(pool).valid() ==> final(pool).valid(),
{
    if now <= pool.last_update_time || pool.total_borrowed == 0 || pool.total_supply == 0 {
        return Ok(());
    }
    let elapsed: u64 = ((now as i128) - (pool.last_update_time as i128)) as u64;
    let rate = calculate_interest_rate(pool)?;
    let principal_rate = match checked_mul(pool.total_borrowed, rate) {
        Ok(v) => v,
        Err(e) => {
            proof {
                lemma_product_grows(pool.total_borrowed * rate, elapsed as int);
            }
            return Err(e);
        },
    };
    let gross = checked_mul(principal_rate, elapsed)?;
    let interest: u64 = gross / SECONDS_PER_YEAR;
    let debt = checked_add(pool.total_borrowed, interest)?;
    let scaled = checked_mul(interest, INDEX_SCALE)?;
    let supply_growth: u64 = scaled / pool.total_supply;
    let borrow_growth: u64 = scaled / debt;
    let liquidity_index = checked_add_wide(pool.liquidity_index, supply_growth as u128)?;
    let borrow_index = checked_add_wide(pool.borrow_index, borrow_growth as u128)?;
    pool.total_borrowed = debt;
    pool.liquidity_index = liquidity_index;
    pool.borrow_index = borrow_index;
    pool.last_update_time = now;
    Ok(())
}

} // verus!
