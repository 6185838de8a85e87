//! The five transitions of a pool and one of its positions. Each first
//! brings the pool's interest up to date, then checks its preconditions,
//! then changes the pool and the position together, or neither.

use vstd::prelude::*;
use crate::interest::{accrue_interest, accrue_spec};
use crate::math::{checked_add, checked_sub};
use crate::model::{EventKind, LendingError, LendingEvent, LendingPool, UserPosition, INDEX_SCALE};
use crate::risk::{
    borrow_check_spec,
    check_before_borrow,
    check_liquidatable,
    get_oracle_price,
    is_healthy,
    is_healthy_spec,
    liquidation_check_spec,
    ORACLE_PRICE,
};

verus! {

/// A request to change a pool and one position.
#[derive(Clone, Copy, Debug, PartialEq, Eq)]
pub enum Operation {
    Deposit(u64),
    Withdraw(u64),
    Borrow(u64),
    Repay(u64),
    /// The debt repaid, then the collateral seized.
    Liquidate(u64, u64),
}

/// A pool and a position after a transition, or the reason it was refused.
pub type Outcome = Result<(LendingPool, UserPosition), LendingError>;

/// The pool as it is created: no balances, both indices at 1.0, last accrual
/// at `now`.
pub open spec fn initial_pool(
    mint: [u8; 32],
    decimals: u8,
    reserve_factor: u8,
    collateral_factor: u8,
    base_rate: u64,
    now: i64,
) -> LendingPool {
    LendingPool {
        mint,
        decimals,
        total_supply: 0,
        total_borrowed: 0,
        liquidity_index: INDEX_SCALE as u128,
        borrow_index: INDEX_SCALE as u128,
        reserve_factor,
        collateral_factor,
        last_update_time: now,
        base_rate,
    }
}

/// The deposit of `amount` after accrual: it is added to the position's
/// deposit and to the pool's supply.
pub open spec fn deposit_spec(pool: LendingPool, position: UserPosition, amount: u64, now: i64) -> Outcome {
    match accrue_spec(pool, now) {
        Err(e) => Err(e),
        Ok(accrued) => if position.deposited_amount + amount > u64::MAX || accrued.total_supply
            + amount > u64::MAX {
            Err(LendingError::MathOverflow)
        } else {
            Ok(
                (
                    LendingPool { total_supply: (accrued.total_supply + amount) as u64, ..accrued },
                    UserPosition {
                        deposited_amount: (position.deposited_amount + amount) as u64,
                        ..position
                    },
                ),
            )
        },
    }
}

/// The withdrawal of `amount` after accrual: it must not exceed the deposit,
/// a position with debt must stay healthy on what is left, and the amount
/// leaves the position's deposit and the pool's supply.
pub open spec fn withdraw_spec(pool: LendingPool, position: UserPosition, amount: u64, now: i64) -> Outcome {
    match accrue_spec(pool, now) {
        Err(e) => Err(e),
        Ok(accrued) => if amount > position.deposited_amount {
            Err(LendingError::MathUnderflow)
        } else {
            match is_healthy_spec(
                (position.deposited_amount - amount) as u64,
                position.borrowed_amount,
                accrued.collateral_factor,
                ORACLE_PRICE,
            ) {
                Err(e) => Err(e),
                Ok(healthy) => if !healthy {
                    Err(LendingError::InsufficientCollateral)
                } else if amount > accrued.total_supply {
                    Err(LendingError::MathUnderflow)
                } else {
                    Ok(
                        (
                            LendingPool { total_supply: (accrued.total_supply - amount) as u64, ..accrued },
                            UserPosition {
                                deposited_amount: (position.deposited_amount - amount) as u64,
                                ..position
                            },
                        ),
                    )
                },
            }
        },
    }
}

/// The borrow of `amount` after accrual: the position must pass the health check at
/// its prospective debt, and the amount is added to the position's debt and
/// to the pool's.
pub open spec fn borrow_spec(pool: LendingPool, position: UserPosition, amount: u64, now: i64) -> Outcome {
    match accrue_spec(pool, now) {
        Err(e) => Err(e),
        Ok(accrued) => match borrow_check_spec(position, accrued, amount) {
            Err(e) => Err(e),
            Ok(_) => if accrued.total_borrowed + amount > u64::MAX {
                Err(LendingError::MathOverflow)
            } else {
                Ok(
                    (
                        LendingPool { total_borrowed: (accrued.total_borrowed + amount) as u64, ..accrued },
                        UserPosition {
                            borrowed_amount: (position.borrowed_amount + amount) as u64,
                            ..position
                        },
                    ),
                )
            },
        },
    }
}

/// The repayment of `amount` after accrual: it must exceed neither the
/// position's debt nor the pool's, and leaves both.
pub open spec fn repay_spec(pool: LendingPool, position: UserPosition, amount: u64, now: i64) -> Outcome {
    match accrue_spec(pool, now) {
        Err(e) => Err(e),
        Ok(accrued) => if amount > position.borrowed_amount || amount > accrued.total_borrowed {
            Err(LendingError::MathUnderflow)
        } else {
            Ok(
                (
                    LendingPool { total_borrowed: (accrued.total_borrowed - amount) as u64, ..accrued },
                    UserPosition {
                        borrowed_amount: (position.borrowed_amount - amount) as u64,
                        ..position
                    },
                ),
            )
        },
    }
}

/// The liquidation after accrual: the position must be under the health
/// threshold, `repay_amount` leaves the debt of the position and of the pool,
/// and `seize_amount` leaves the deposit of the position and the pool's supply.
pub open spec fn liquidate_spec(
    pool: LendingPool,
    position: UserPosition,
    repay_amount: u64,
    seize_amount: u64,
    now: i64,
) -> Outcome {
    match accrue_spec(pool, now) {
        Err(e) => Err(e),
        Ok(accrued) => match liquidation_check_spec(position, accrued) {
            Err(e) => Err(e),
            Ok(_) => if repay_amount > position.borrowed_amount || seize_amount
                > position.deposited_amount || repay_amount > accrued.total_borrowed || seize_amount
                > accrued.total_supply {
                Err(LendingError::MathUnderflow)
            } else {
                Ok(
                    (
                        LendingPool {
                            total_borrowed: (accrued.total_borrowed - repay_amount) as u64,
                            total_supply: (accrued.total_supply - seize_amount) as u64,
                            ..accrued
                        },
                        UserPosition {
                            borrowed_amount: (position.borrowed_amount - repay_amount) as u64,
                            deposited_amount: (position.deposited_amount - seize_amount) as u64,
                            ..position
                        },
                    ),
                )
            },
        },
    }
}

/// What an operation makes of a pool and a position at `now`.
pub open spec fn apply_spec(op: Operation, pool: LendingPool, position: UserPosition, now: i64) -> Outcome {
    match op {
        Operation::Deposit(amount) => deposit_spec(pool, position, amount, now),
        Operation::Withdraw(amount) => withdraw_spec(pool, position, amount, now),
        Operation::Borrow(amount) => borrow_spec(pool, position, amount, now),
        Operation::Repay(amount) => repay_spec(pool, position, amount, now),
        Operation::Liquidate(repay_amount, seize_amount) => liquidate_spec(
            pool,
            position,
            repay_amount,
            seize_amount,
            now,
        ),
    }
}

impl Operation {
    /// Whether the operation may be asked for: a deposit, a borrow and a
    /// repayment move a positive amount.
    pub open spec fn admissible(self) -> bool {
        match self {
            Operation::Deposit(amount) => amount > 0,
            Operation::Borrow(amount) => amount > 0,
            Operation::Repay(amount) => amount > 0,
            _ => true,
        }
    }

    /// The kind of event that records the operation.
    pub open spec fn kind_spec(self) -> EventKind {
        match self {
            Operation::Deposit(_) => EventKind::Deposit,
            Operation::Withdraw(_) => EventKind::Withdraw,
            Operation::Borrow(_) => EventKind::Borrow,
            Operation::Repay(_) => EventKind::Repay,
            Operation::Liquidate(_, _) => EventKind::Liquidate,
        }
    }

    /// The amount that the event reports: the amount moved, and for a
    /// liquidation the debt repaid.
    pub open spec fn amount_spec(self) -> u64 {
        match self {
            Operation::Deposit(amount) => amount,
            Operation::Withdraw(amount) => amount,
            Operation::Borrow(amount) => amount,
            Operation::Repay(amount) => amount,
            Operation::Liquidate(repay_amount, _) => repay_amount,
        }
    }
}

/// The event that records a transition.
pub open spec fn event_spec(kind: EventKind, amount: u64, user: [u8; 32], now: i64) -> LendingEvent {
    LendingEvent { kind, amount, user, timestamp: now }
}

/// How a call relates to the outcome it is specified by: on success the new
/// pool and position are the outcome's and the event is returned; on failure
/// the error is returned and both are as they were.
pub open spec fn carried_out(
    outcome: Outcome,
    before: (LendingPool, UserPosition),
    after: (LendingPool, UserPosition),
    event: LendingEvent,
    returned: Result<LendingEvent, LendingError>,
) -> bool {
    match outcome {
        Ok(state) => after == state && returned == Ok::<LendingEvent, LendingError>(event),
        Err(e) => after == before && returned == Err::<LendingEvent, LendingError>(e),
    }
}

/// Creates a pool without balances, its indices at 1.0 and its last accrual
/// at `now`. Both percentages must be at most 100, and the pool is valid.
pub fn initialize_pool(
    mint: [u8; 32],
    decimals: u8,
    reserve_factor: u8,
    collateral_factor: u8,
    base_rate: u64,
    now: i64,
) -> (pool: LendingPool)
    requires
        reserve_factor <= 100,
        collateral_factor <= 100,
    ensures
        pool == initial_pool(mint, decimals, reserve_factor, collateral_factor, base_rate, now),
        pool.valid(),
{
    LendingPool {
        mint,
        decimals,
        total_supply: 0,
        total_borrowed: 0,
        liquidity_index: INDEX_SCALE as u128,
        borrow_index: INDEX_SCALE as u128,
        reserve_factor,
        collateral_factor,
        last_update_time: now,
        base_rate,
    }
}

/// Carries out one admissible operation on the pool and the position of
/// `user`, as the function of its kind does.
///
/// Returns the event to record. On an error nothing has changed.
pub fn apply(
    op: Operation,
    pool: &mut LendingPool,
    position: &mut UserPosition,
    user: [u8; 32],
    now: i64,
) -> (r: Result<LendingEvent, LendingError>)
    requires
        op.admissible(),
    ensures
        carried_out(
            apply_spec(op, *old(pool), *old(position), now),
            (*old(pool), *old(position)),
            (*final(pool), *final(position)),
            event_spec(op.kind_spec(), op.amount_spec(), user, now),
            r,
        ),
        old(pool).valid() ==> final(pool).valid(),
{
    match op {
        Operation::Deposit(amount) => deposit(pool, position, user, amount, now),
        Operation::Withdraw(amount) => withdraw(pool, position, user, amount, now),
        Operation::Borrow(amount) => borrow(pool, position, user, amount, now),
        Operation::Repay(amount) => repay(pool, position, user, amount, now),
        Operation::Liquidate(repay_amount, seize_amount) => liquidate(
            pool,
            position,
            user,
            repay_amount,
            seize_amount,
            now,
        ),
    }
}

/// Adds `amount`, which must be positive, to the position's deposit and to
/// the pool's supply.
///
/// Returns the event to record. On an error nothing has changed.
pub fn deposit(
    pool: &mut LendingPool,
    position: &mut UserPosition,
    user: [u8; 32],
    amount: u64,
    now: i64,
) -> (r: Result<LendingEvent, LendingError>)
    requires
        amount > 0,
    ensures
        carried_out(
            deposit_spec(*old(pool), *old(position), amount, now),
            (*old(pool), *old(position)),
            (*final(pool), *final(position)),
            event_spec(EventKind::Deposit, amount, user, now),
            r,
        ),
        old(pool).valid() ==> final(pool).valid(),
{
    let mut accrued = *pool;
    accrue_interest(&mut accrued, now)?;
    let deposited = checked_add(position.deposited_amount, amount)?;
    let supply = checked_add(accrued.total_supply, amount)?;
    accrued.total_supply = supply;
    *pool = accrued;
    position.deposited_amount = deposited;
    Ok(LendingEvent { kind: EventKind::Deposit, amount, user, timestamp: now })
}

/// Takes `amount` out of the position's deposit and the pool's supply. A
/// position with debt must stay at or above the health threshold.
///
/// Returns the event to record. On an error nothing has changed.
pub fn withdraw(
    pool: &mut LendingPool,
    position: &mut UserPosition,
    user: [u8; 32],
    amount: u64,
    now: i64,
) -> (r: Result<LendingEvent, LendingError>)
    ensures
        carried_out(
            withdraw_spec(*old(pool), *old(position), amount, now),
            (*old(pool), *old(position)),
            (*final(pool), *final(position)),
            event_spec(EventKind::Withdraw, amount, user, now),
            r,
        ),
        old(pool).valid() ==> final(pool).valid(),
{
    let mut accrued = *pool;
    accrue_interest(&mut accrued, now)?;
    let deposited = checked_sub(position.deposited_amount, amount)?;
    let price = get_oracle_price(accrued.mint)?;
    let healthy = is_healthy(deposited, position.borrowed_amount, accrued.collateral_factor, price)?;
    if !healthy {
        return Err(LendingError::InsufficientCollateral);
    }
    let supply = checked_sub(accrued.total_supply, amount)?;
    accrued.total_supply = supply;
    *pool = accrued;
    position.deposited_amount = deposited;
    Ok(LendingEvent { kind: EventKind::Withdraw, amount, user, timestamp: now })
}

/// Adds `amount`, which must be positive, to the position's debt and to the
/// pool's, where the position stays at or above the health threshold with
/// that debt. Whether the pool holds the funds is not looked at.
///
/// Returns the event to record. On an error nothing has changed.
pub fn borrow(
    pool: &mut LendingPool,
    position: &mut UserPosition,
    user: [u8; 32],
    amount: u64,
    now: i64,
) -> (r: Result<LendingEvent, LendingError>)
    requires
        amount > 0,
    ensures
        carried_out(
            borrow_spec(*old(pool), *old(position), amount, now),
            (*old(pool), *old(position)),
            (*final(pool), *final(position)),
            event_spec(EventKind::Borrow, amount, user, now),
            r,
        ),
        old(pool).valid() ==> final(pool).valid(),
{
    let mut accrued = *pool;
    accrue_interest(&mut accrued, now)?;
    check_before_borrow(position, &accrued, amount)?;
    let borrowed = checked_add(position.borrowed_amount, amount)?;
    let debt = checked_add(accrued.total_borrowed, amount)?;
    accrued.total_borrowed = debt;
    *pool = accrued;
    position.borrowed_amount = borrowed;
    Ok(LendingEvent { kind: EventKind::Borrow, amount, user, timestamp: now })
}

/// Takes `amount`, which must be positive, off the position's debt and the
/// pool's.
///
/// Returns the event to record. On an error nothing has changed.
pub fn repay(
    pool: &mut LendingPool,
    position: &mut UserPosition,
    user: [u8; 32],
    amount: u64,
    now: i64,
) -> (r: Result<LendingEvent, LendingError>)
    requires
        amount > 0,
    ensures
        carried_out(
            repay_spec(*old(pool), *old(position), amount, now),
            (*old(pool), *old(position)),
            (*final(pool), *final(position)),
            event_spec(EventKind::Repay, amount, user, now),
            r,
        ),
        old(pool).valid() ==> final(pool).valid(),
{
    let mut accrued = *pool;
    accrue_interest(&mut accrued, now)?;
    let borrowed = checked_sub(position.borrowed_amount, amount)?;
    let debt = checked_sub(accrued.total_borrowed, amount)?;
    accrued.total_borrowed = debt;
    *pool = accrued;
    position.borrowed_amount = borrowed;
    Ok(LendingEvent { kind: EventKind::Repay, amount, user, timestamp: now })
}

/// Liquidates a position that is under the health threshold: takes
/// `repay_amount` off its debt and the pool's, and `seize_amount` out of its
/// deposit and the pool's supply.
///
/// Returns the event to record, which carries the amount repaid. On an error
/// nothing has changed.
pub fn liquidate(
    pool: &mut LendingPool,
    position: &mut UserPosition,
    user: [u8; 32],
    repay_amount: u64,
    seize_amount: u64,
    now: i64,
) -> (r: Result<LendingEvent, LendingError>)
    ensures
        carried_out(
            liquidate_spec(*old(pool), *old(position), repay_amount, seize_amount, now),
            (*old(pool), *old(position)),
            (*final(pool), *final(position)),
            event_spec(EventKind::Liquidate, repay_amount, user, now),
            r,
        ),
        old(pool).valid() ==> final(pool).valid(),
{
    let mut accrued = *pool;
    accrue_interest(&mut accrued, now)?;
    check_liquidatable(position, &accrued)?;
    let borrowed = checked_sub(position.borrowed_amount, repay_amount)?;
    let deposited = checked_sub(position.deposited_amount, seize_amount)?;
    let debt = checked_sub(accrued.total_borrowed, repay_amount)?;
    let supply = checked_sub(accrued.total_supply, seize_amount)?;
    accrued.total_borrowed = debt;
    accrued.total_supply = supply;
    *pool = accrued;
    position.borrowed_amount = borrowed;
    position.deposited_amount = deposited;
    Ok(LendingEvent { kind: EventKind::Liquidate, amount: repay_amount, user, timestamp: now })
}

} // verus!
