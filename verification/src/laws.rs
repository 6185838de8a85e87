//! What holds of the transitions taken together.

use vstd::prelude::*;
use crate::interest::{
    accrual_idle,
    accrue_spec,
    accrued_interest,
    elapsed_spec,
    interest_due,
    interest_rate_spec,
    slope_spec,
    utilization,
};
use crate::ledger::{
    apply_spec,
    borrow_spec,
    deposit_spec,
    liquidate_spec,
    repay_spec,
    withdraw_spec,
    Operation,
};
use crate::model::{LendingError, LendingPool, UserPosition, HEALTH_THRESHOLD, INDEX_SCALE};
use crate::risk::{borrow_check_spec, borrow_limit, health_factor_spec, ORACLE_PRICE};

verus! {

/// Sum of the deposits of all positions.
pub open spec fn total_deposited(positions: Seq<UserPosition>) -> int
    decreases positions.len(),
{
    if positions.len() == 0 {
        0
    } else {
        total_deposited(positions.drop_last()) + positions.last().deposited_amount
    }
}

/// Sum of the debts of all positions.
pub open spec fn total_owed(positions: Seq<UserPosition>) -> int
    decreases positions.len(),
{
    if positions.len() == 0 {
        0
    } else {
        total_owed(positions.drop_last()) + positions.last().borrowed_amount
    }
}

/// Replacing one position moves both sums by the difference between the new
/// position and the old.
pub proof fn lemma_totals_after_update(positions: Seq<UserPosition>, i: int, replacement: UserPosition)
    requires
        0 <= i < positions.len(),
    ensures
        total_deposited(positions.update(i, replacement)) == total_deposited(positions)
            - positions[i].deposited_amount + replacement.deposited_amount,
        total_owed(positions.update(i, replacement)) == total_owed(positions)
            - positions[i].borrowed_amount + replacement.borrowed_amount,
    decreases positions.len(),
{
    let updated = positions.update(i, replacement);
    if i == positions.len() - 1 {
        assert(updated.drop_last() =~= positions.drop_last());
    } else {
        lemma_totals_after_update(positions.drop_last(), i, replacement);
        assert(updated.drop_last() =~= positions.drop_last().update(i, replacement));
    }
}

/// Conservation of supply: a deposit followed, at any later call, by a
/// successful withdrawal of the same amount leaves the pool's supply where
/// it was before the deposit, whichever positions the two act on. Where the
/// depositor withdraws, the position is back where it was too.
pub proof fn law_deposit_withdraw_conserves_supply(
    pool: LendingPool,
    depositor: UserPosition,
    withdrawer: UserPosition,
    amount: u64,
    deposited_at: i64,
    withdrawn_at: i64,
)
    requires
        deposit_spec(pool, depositor, amount, deposited_at).is_ok(),
        withdraw_spec(
            deposit_spec(pool, depositor, amount, deposited_at).unwrap().0,
            withdrawer,
            amount,
            withdrawn_at,
        ).is_ok(),
    ensures
        ({
            let (funded, credited) = deposit_spec(pool, depositor, amount, deposited_at).unwrap();
            let (drained, debited) = withdraw_spec(funded, withdrawer, amount, withdrawn_at).unwrap();
            &&& drained.total_supply == pool.total_supply
            &&& withdrawer == credited ==> debited == depositor
        }),
{
}

/// Conservation of debt: after a borrow and a successful repayment of the
/// same amount the pool's debt differs from its debt before the borrow by
/// the interest that the two calls accrued, and by nothing where they
/// accrued none.
pub proof fn law_borrow_repay_conserves_debt(
    pool: LendingPool,
    borrower: UserPosition,
    payer: UserPosition,
    amount: u64,
    borrowed_at: i64,
    repaid_at: i64,
)
    requires
        borrow_spec(pool, borrower, amount, borrowed_at).is_ok(),
        repay_spec(borrow_spec(pool, borrower, amount, borrowed_at).unwrap().0, payer, amount, repaid_at).is_ok(),
    ensures
        ({
            let lent = borrow_spec(pool, borrower, amount, borrowed_at).unwrap().0;
            let settled = repay_spec(lent, payer, amount, repaid_at).unwrap().0;
            &&& settled.total_borrowed == pool.total_borrowed + accrued_interest(pool, borrowed_at)
                + accrued_interest(lent, repaid_at)
            &&& accrued_interest(pool, borrowed_at) == 0 && accrued_interest(lent, repaid_at) == 0
                ==> settled.total_borrowed == pool.total_borrowed
            &&& pool.last_update_time >= borrowed_at && borrowed_at >= repaid_at ==> settled.total_borrowed
                == pool.total_borrowed
        }),
{
}

/// What a successful operation adds to the pool's supply.
pub open spec fn supply_change(op: Operation) -> int {
    match op {
        Operation::Deposit(amount) => amount as int,
        Operation::Withdraw(amount) => -(amount as int),
        Operation::Liquidate(_, seize_amount) => -(seize_amount as int),
        _ => 0,
    }
}

/// What a successful operation adds to the pool's debt, beyond the interest
/// that it accrues.
pub open spec fn debt_change(op: Operation) -> int {
    match op {
        Operation::Borrow(amount) => amount as int,
        Operation::Repay(amount) => -(amount as int),
        Operation::Liquidate(repay_amount, _) => -(repay_amount as int),
        _ => 0,
    }
}

/// The pool after a history of operations, each given with the position it
/// acts on and its time; `None` where one of them fails.
pub open spec fn pool_after(pool: LendingPool, history: Seq<(Operation, UserPosition, i64)>) -> Option<
    LendingPool,
>
    decreases history.len(),
{
    if history.len() == 0 {
        Some(pool)
    } else {
        match pool_after(pool, history.drop_last()) {
            None => None,
            Some(reached) => match apply_spec(
                history.last().0,
                reached,
                history.last().1,
                history.last().2,
            ) {
                Ok(state) => Some(state.0),
                Err(_) => None,
            },
        }
    }
}

/// Sum of the supply changes of a history.
pub open spec fn net_supply_change(history: Seq<(Operation, UserPosition, i64)>) -> int
    decreases history.len(),
{
    if history.len() == 0 {
        0
    } else {
        net_supply_change(history.drop_last()) + supply_change(history.last().0)
    }
}

/// Sum of the debt changes of a history.
pub open spec fn net_debt_change(history: Seq<(Operation, UserPosition, i64)>) -> int
    decreases history.len(),
{
    if history.len() == 0 {
        0
    } else {
        net_debt_change(history.drop_last()) + debt_change(history.last().0)
    }
}

/// Sum of the interest that the operations of a successful history accrue.
pub open spec fn interest_over(pool: LendingPool, history: Seq<(Operation, UserPosition, i64)>) -> int
    decreases history.len(),
{
    if history.len() == 0 {
        0
    } else {
        match pool_after(pool, history.drop_last()) {
            None => 0,
            Some(reached) => interest_over(pool, history.drop_last()) + accrued_interest(
                reached,
                history.last().2,
            ),
        }
    }
}

/// Whether two operations are a pair that cancels: a deposit and a
/// withdrawal of the same amount, or, for `lending`, a borrow and a
/// repayment of the same amount.
pub open spec fn cancelling(first: Operation, second: Operation, lending: bool) -> bool {
    match (first, second) {
        (Operation::Deposit(put), Operation::Withdraw(taken)) => !lending && put == taken,
        (Operation::Borrow(lent), Operation::Repay(repaid)) => lending && lent == repaid,
        _ => false,
    }
}

/// Whether a history is made of cancelling pairs, one after the other.
pub open spec fn paired(history: Seq<(Operation, UserPosition, i64)>, lending: bool) -> bool
    decreases history.len(),
{
    if history.len() == 0 {
        true
    } else if history.len() == 1 {
        false
    } else {
        &&& cancelling(history.drop_last().last().0, history.last().0, lending)
        &&& paired(history.drop_last().drop_last(), lending)
    }
}

/// After a successful history the pool's supply is its first supply plus
/// the changes of the operations, and its debt is its first debt plus their
/// changes and the interest accrued on the way.
pub proof fn law_totals_follow_history(pool: LendingPool, history: Seq<(Operation, UserPosition, i64)>)
    requires
        pool_after(pool, history).is_some(),
    ensures
        pool_after(pool, history).unwrap().total_supply == pool.total_supply + net_supply_change(history),
        pool_after(pool, history).unwrap().total_borrowed == pool.total_borrowed + net_debt_change(history)
            + interest_over(pool, history),
    decreases history.len(),
{
    if history.len() > 0 {
        law_totals_follow_history(pool, history.drop_last());
    }
}

/// The changes of a paired history cancel, and a history of borrows and
/// repayments leaves the supply alone.
pub proof fn lemma_paired_changes_cancel(history: Seq<(Operation, UserPosition, i64)>, lending: bool)
    requires
        paired(history, lending),
    ensures
        net_supply_change(history) == 0,
        lending ==> net_debt_change(history) == 0,
    decreases history.len(),
{
    if history.len() > 0 {
        lemma_paired_changes_cancel(history.drop_last().drop_last(), lending);
        assert(net_supply_change(history.drop_last()) == net_supply_change(
            history.drop_last().drop_last(),
        ) + supply_change(history.drop_last().last().0));
        assert(net_debt_change(history.drop_last()) == net_debt_change(history.drop_last().drop_last())
            + debt_change(history.drop_last().last().0));
    }
}

/// Conservation over histories: after any successful history of deposits,
/// each followed by a withdrawal of the same amount, the pool's supply is
/// what it was. After any successful history of borrows, each followed by a
/// repayment of the same amount, the pool's supply is what it was and its
/// debt is what it was plus the interest accrued on the way.
pub proof fn law_paired_history_conserves(
    pool: LendingPool,
    history: Seq<(Operation, UserPosition, i64)>,
    lending: bool,
)
    requires
        paired(history, lending),
        pool_after(pool, history).is_some(),
    ensures
        pool_after(pool, history).unwrap().total_supply == pool.total_supply,
        lending ==> pool_after(pool, history).unwrap().total_borrowed == pool.total_borrowed
            + interest_over(pool, history),
{
    law_totals_follow_history(pool, history);
    lemma_paired_changes_cancel(history, lending);
}

/// Solvency: a successful operation on one position of a pool moves the
/// pool's supply exactly as it moves the sum of all deposits, and the pool's
/// debt as it moves the sum of all debts plus the interest accrued. So a
/// pool whose supply equals the sum of the deposits stays so, and a pool
/// whose debt equals the sum of the debts stays so whenever the operation
/// accrues no interest.
pub proof fn law_solvency_preserved(
    op: Operation,
    pool: LendingPool,
    positions: Seq<UserPosition>,
    i: int,
    now: i64,
)
    requires
        0 <= i < positions.len(),
        apply_spec(op, pool, positions[i], now).is_ok(),
    ensures
        ({
            let (pool_after, position_after) = apply_spec(op, pool, positions[i], now).unwrap();
            let after = positions.update(i, position_after);
            &&& pool_after.total_supply - total_deposited(after) == pool.total_supply - total_deposited(
                positions,
            )
            &&& pool_after.total_borrowed - total_owed(after) == pool.total_borrowed + accrued_interest(
                pool,
                now,
            ) - total_owed(positions)
            &&& total_deposited(positions) == pool.total_supply ==> total_deposited(after)
                == pool_after.total_supply
            &&& total_owed(positions) == pool.total_borrowed && accrued_interest(pool, now) == 0
                ==> total_owed(after) == pool_after.total_borrowed
        }),
{
    let (pool_after, position_after) = apply_spec(op, pool, positions[i], now).unwrap();
    lemma_totals_after_update(positions, i, position_after);
}

/// The health check of a borrow: where the accrual succeeds, the prospective
/// debt is positive and every intermediate value fits, the borrow is refused
/// for want of collateral exactly where the borrowing power covers less than
/// the whole prospective debt, and succeeds otherwise.
pub proof fn law_borrow_health_check(pool: LendingPool, position: UserPosition, amount: u64, now: i64)
    requires
        accrue_spec(pool, now).is_ok(),
        0 < position.borrowed_amount + amount <= u64::MAX,
        health_factor_spec(
            position.deposited_amount,
            (position.borrowed_amount + amount) as u64,
            pool.collateral_factor,
            ORACLE_PRICE,
        ).is_ok(),
        accrue_spec(pool, now).unwrap().total_borrowed + amount <= u64::MAX,
    ensures
        ({
            let health = borrow_limit(position.deposited_amount, pool.collateral_factor, ORACLE_PRICE) * 100 / (
            position.borrowed_amount + amount);
            &&& health < HEALTH_THRESHOLD <==> borrow_spec(pool, position, amount, now) == Err::<
                (LendingPool, UserPosition),
                LendingError,
            >(LendingError::InsufficientCollateral)
            &&& health >= HEALTH_THRESHOLD <==> borrow_spec(pool, position, amount, now).is_ok()
        }),
{
}

/// The liquidation check: where the accrual succeeds, a position without
/// debt, or with a health factor of at least the threshold, cannot be
/// liquidated, whatever the amounts.
pub proof fn law_liquidation_check(
    pool: LendingPool,
    position: UserPosition,
    repay_amount: u64,
    seize_amount: u64,
    now: i64,
)
    requires
        accrue_spec(pool, now).is_ok(),
        position.borrowed_amount == 0 || (health_factor_spec(
            position.deposited_amount,
            position.borrowed_amount,
            pool.collateral_factor,
            ORACLE_PRICE,
        ).is_ok() && health_factor_spec(
            position.deposited_amount,
            position.borrowed_amount,
            pool.collateral_factor,
            ORACLE_PRICE,
        ).unwrap() >= HEALTH_THRESHOLD),
    ensures
        liquidate_spec(pool, position, repay_amount, seize_amount, now) == Err::<
            (LendingPool, UserPosition),
            LendingError,
        >(LendingError::NotLiquidatable),
{
}

/// Accrual is idempotent: a second accrual at the same time changes nothing.
pub proof fn law_accrual_idempotent(pool: LendingPool, now: i64)
    requires
        accrue_spec(pool, now).is_ok(),
    ensures
        accrue_spec(accrue_spec(pool, now).unwrap(), now) == accrue_spec(pool, now),
{
}

/// Accrual on a pool without debt changes nothing, however much time has
/// passed.
pub proof fn law_accrual_idle_without_debt(pool: LendingPool, now: i64)
    requires
        pool.total_borrowed == 0,
    ensures
        accrue_spec(pool, now) == Ok::<LendingPool, LendingError>(pool),
{
}

/// Accrual never lowers the debt, an index or the time of the last accrual,
/// keeps the supply, and keeps a valid pool valid.
pub proof fn law_accrual_monotonic(pool: LendingPool, now: i64)
    requires
        accrue_spec(pool, now).is_ok(),
    ensures
        ({
            let accrued = accrue_spec(pool, now).unwrap();
            &&& accrued.total_supply == pool.total_supply
            &&& accrued.total_borrowed >= pool.total_borrowed
            &&& accrued.liquidity_index >= pool.liquidity_index
            &&& accrued.borrow_index >= pool.borrow_index
            &&& accrued.last_update_time >= pool.last_update_time
            &&& pool.valid() ==> accrued.valid()
        }),
{
}

/// Overflow in an accrual is refused: where the accrual has work to do and
/// the utilization, the rate, the interest product, the new debt, the scaled
/// interest or a new index does not fit its width, the accrual fails with
/// `MathOverflow`.
pub proof fn law_accrual_overflow_rejected(pool: LendingPool, now: i64)
    requires
        !accrual_idle(pool, now),
    ensures
        pool.total_borrowed * 100 > u64::MAX || pool.base_rate + utilization(pool) * slope_spec(
            utilization(pool),
        ) > u64::MAX ==> accrue_spec(pool, now) == Err::<LendingPool, LendingError>(
            LendingError::MathOverflow,
        ),
        interest_rate_spec(pool).is_ok() ==> ({
            let rate = interest_rate_spec(pool).unwrap();
            let interest = interest_due(pool, rate, now);
            let debt = pool.total_borrowed + interest;
            pool.total_borrowed * rate * elapsed_spec(pool, now) > u64::MAX || debt > u64::MAX || interest
                * INDEX_SCALE > u64::MAX || pool.liquidity_index + interest * INDEX_SCALE / (
            pool.total_supply as int) > u128::MAX || pool.borrow_index + interest * INDEX_SCALE / debt
                > u128::MAX ==> accrue_spec(pool, now) == Err::<LendingPool, LendingError>(
                LendingError::MathOverflow,
            )
        }),
{
}

/// An operation fails as its accrual fails.
pub proof fn law_failed_accrual_fails_operation(
    op: Operation,
    pool: LendingPool,
    position: UserPosition,
    now: i64,
)
    requires
        accrue_spec(pool, now).is_err(),
    ensures
        apply_spec(op, pool, position, now) == Err::<(LendingPool, UserPosition), LendingError>(
            accrue_spec(pool, now).unwrap_err(),
        ),
{
}

/// Overflow of a balance is refused: after a successful accrual, a deposit
/// whose new deposit or new supply does not fit 64 bits fails with
/// `MathOverflow`, and so does a borrow whose prospective debt does not fit,
/// whose collateral value does not fit, or which passes the health check and
/// would take the pool's debt beyond 64 bits.
pub proof fn law_balance_overflow_rejected(
    pool: LendingPool,
    position: UserPosition,
    amount: u64,
    now: i64,
)
    requires
        accrue_spec(pool, now).is_ok(),
    ensures
        ({
            let accrued = accrue_spec(pool, now).unwrap();
            let overflow = Err::<(LendingPool, UserPosition), LendingError>(LendingError::MathOverflow);
            &&& position.deposited_amount + amount > u64::MAX || accrued.total_supply + amount > u64::MAX
                ==> deposit_spec(pool, position, amount, now) == overflow
            &&& position.borrowed_amount + amount > u64::MAX ==> borrow_spec(pool, position, amount, now)
                == overflow
            &&& 0 < position.borrowed_amount + amount <= u64::MAX && position.deposited_amount
                * ORACLE_PRICE > u64::MAX ==> borrow_spec(pool, position, amount, now) == overflow
            &&& borrow_check_spec(position, accrued, amount).is_ok() && accrued.total_borrowed + amount
                > u64::MAX ==> borrow_spec(pool, position, amount, now) == overflow
        }),
{
}

} // verus!
