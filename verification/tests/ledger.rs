use lending_pool::ledger::{
    apply, borrow, deposit, initialize_pool, liquidate, repay, withdraw, Operation,
};
use lending_pool::model::{EventKind, LendingError, LendingEvent, LendingPool, UserPosition};

const MINT: [u8; 32] = [9u8; 32];
const ALICE: [u8; 32] = [1u8; 32];
const BOB: [u8; 32] = [2u8; 32];

fn fresh_pool() -> LendingPool {
    initialize_pool(MINT, 6, 10, 75, 500, 1_000)
}

fn position_of(user: [u8; 32]) -> UserPosition {
    UserPosition { user, pool: MINT, ..UserPosition::default() }
}

#[test]
fn a_new_pool_is_empty_with_both_indices_at_one() {
    let pool = fresh_pool();
    assert_eq!(
        pool,
        LendingPool {
            mint: MINT,
            decimals: 6,
            total_supply: 0,
            total_borrowed: 0,
            liquidity_index: 1_000_000_000,
            borrow_index: 1_000_000_000,
            reserve_factor: 10,
            collateral_factor: 75,
            last_update_time: 1_000,
            base_rate: 500,
        }
    );
}

#[test]
fn default_records_are_all_zero() {
    let pool = LendingPool::default();
    assert_eq!(pool.mint, [0u8; 32]);
    assert_eq!(pool.total_supply, 0);
    assert_eq!(pool.total_borrowed, 0);
    assert_eq!(pool.liquidity_index, 0);
    assert_eq!(pool.borrow_index, 0);
    assert_eq!(pool.last_update_time, 0);
    let position = UserPosition::default();
    assert_eq!(position.user, [0u8; 32]);
    assert_eq!(position.deposited_amount, 0);
    assert_eq!(position.borrowed_amount, 0);
    assert!(!position.collateral_enabled);
}

#[test]
fn deposit_into_an_empty_pool() {
    let mut pool = fresh_pool();
    let mut alice = position_of(ALICE);
    let event = deposit(&mut pool, &mut alice, ALICE, 1000, 5_000);
    assert_eq!(
        event,
        Ok(LendingEvent { kind: EventKind::Deposit, amount: 1000, user: ALICE, timestamp: 5_000 })
    );
    assert_eq!(pool.total_supply, 1000);
    assert_eq!(pool.total_borrowed, 0);
    assert_eq!(pool.liquidity_index, 1_000_000_000);
    assert_eq!(pool.borrow_index, 1_000_000_000);
    assert_eq!(pool.last_update_time, 1_000);
    assert_eq!(alice.deposited_amount, 1000);
    assert_eq!(alice.borrowed_amount, 0);
}

#[test]
fn borrow_against_the_reference_deposit() {
    let mut pool = fresh_pool();
    let mut alice = position_of(ALICE);
    deposit(&mut pool, &mut alice, ALICE, 1000, 1_000).unwrap();
    let event = borrow(&mut pool, &mut alice, ALICE, 750, 1_000);
    assert_eq!(
        event,
        Ok(LendingEvent { kind: EventKind::Borrow, amount: 750, user: ALICE, timestamp: 1_000 })
    );
    assert_eq!(pool.total_borrowed, 750);
    assert_eq!(pool.total_supply, 1000);
    assert_eq!(alice.borrowed_amount, 750);
    assert_eq!(alice.deposited_amount, 1000);
}

#[test]
fn borrow_without_collateral_is_refused_and_changes_nothing() {
    let mut pool = fresh_pool();
    let mut alice = position_of(ALICE);
    let mut bob = position_of(BOB);
    deposit(&mut pool, &mut alice, ALICE, 1000, 1_000).unwrap();
    let before = pool;
    assert_eq!(borrow(&mut pool, &mut bob, BOB, 1, 2_000), Err(LendingError::InsufficientCollateral));
    assert_eq!(pool, before);
    assert_eq!(bob, position_of(BOB));
}

#[test]
fn borrow_at_the_threshold_passes_and_one_more_unit_fails() {
    let mut pool = fresh_pool();
    let mut alice = position_of(ALICE);
    deposit(&mut pool, &mut alice, ALICE, 1, 1_000).unwrap();
    let before = (pool, alice);
    assert_eq!(
        borrow(&mut pool, &mut alice, ALICE, 750_001, 1_000),
        Err(LendingError::InsufficientCollateral)
    );
    assert_eq!((pool, alice), before);
    assert!(borrow(&mut pool, &mut alice, ALICE, 750_000, 1_000).is_ok());
    assert_eq!(alice.borrowed_amount, 750_000);
    assert_eq!(pool.total_borrowed, 750_000);
}

#[test]
fn borrow_accrues_before_it_checks() {
    let mut pool = fresh_pool();
    pool.total_supply = 100_000;
    pool.total_borrowed = 50_000;
    let mut alice = UserPosition { deposited_amount: 100_000, ..position_of(ALICE) };
    let event = borrow(&mut pool, &mut alice, ALICE, 10, 1_000 + 86_400).unwrap();
    assert_eq!(event.timestamp, 87_400);
    assert_eq!(pool.total_borrowed, 50_000 + 136_986 + 10);
    assert_eq!(pool.liquidity_index, 1_000_000_000 + 1_369_860_000);
    assert_eq!(pool.last_update_time, 87_400);
    assert_eq!(alice.borrowed_amount, 10);
}

#[test]
fn deposit_overflow_changes_nothing() {
    let mut pool = fresh_pool();
    let mut alice = position_of(ALICE);
    let mut bob = position_of(BOB);
    deposit(&mut pool, &mut alice, ALICE, u64::MAX, 1_000).unwrap();
    let before = (pool, alice, bob);
    assert_eq!(deposit(&mut pool, &mut alice, ALICE, 1, 1_000), Err(LendingError::MathOverflow));
    assert_eq!(deposit(&mut pool, &mut bob, BOB, 1, 1_000), Err(LendingError::MathOverflow));
    assert_eq!((pool, alice, bob), before);
}

#[test]
fn a_failed_accrual_fails_the_operation_and_changes_nothing() {
    let mut pool = fresh_pool();
    pool.total_supply = u64::MAX / 200;
    pool.total_borrowed = u64::MAX / 200;
    let mut alice = position_of(ALICE);
    let before = (pool, alice);
    assert_eq!(deposit(&mut pool, &mut alice, ALICE, 5, 90_000), Err(LendingError::MathOverflow));
    assert_eq!(repay(&mut pool, &mut alice, ALICE, 1, 90_000), Err(LendingError::MathOverflow));
    assert_eq!((pool, alice), before);
}

#[test]
fn deposit_then_withdraw_restores_the_supply() {
    let mut pool = fresh_pool();
    let mut alice = position_of(ALICE);
    let mut bob = position_of(BOB);
    deposit(&mut pool, &mut bob, BOB, 40, 1_000).unwrap();
    let supply = pool.total_supply;
    deposit(&mut pool, &mut alice, ALICE, 1000, 2_000).unwrap();
    let event = withdraw(&mut pool, &mut alice, ALICE, 1000, 3_000);
    assert_eq!(
        event,
        Ok(LendingEvent { kind: EventKind::Withdraw, amount: 1000, user: ALICE, timestamp: 3_000 })
    );
    assert_eq!(pool.total_supply, supply);
    assert_eq!(alice, position_of(ALICE));
}

#[test]
fn borrow_then_repay_at_one_time_restores_the_debt() {
    let mut pool = fresh_pool();
    let mut alice = position_of(ALICE);
    deposit(&mut pool, &mut alice, ALICE, 1000, 1_000).unwrap();
    borrow(&mut pool, &mut alice, ALICE, 300, 1_000).unwrap();
    let debt = pool.total_borrowed;
    borrow(&mut pool, &mut alice, ALICE, 200, 1_000).unwrap();
    let event = repay(&mut pool, &mut alice, ALICE, 200, 1_000);
    assert_eq!(
        event,
        Ok(LendingEvent { kind: EventKind::Repay, amount: 200, user: ALICE, timestamp: 1_000 })
    );
    assert_eq!(pool.total_borrowed, debt);
    assert_eq!(alice.borrowed_amount, 300);
}

#[test]
fn withdraw_more_than_deposited_is_an_underflow() {
    let mut pool = fresh_pool();
    let mut alice = position_of(ALICE);
    deposit(&mut pool, &mut alice, ALICE, 1000, 1_000).unwrap();
    let before = (pool, alice);
    assert_eq!(withdraw(&mut pool, &mut alice, ALICE, 1001, 1_000), Err(LendingError::MathUnderflow));
    assert_eq!((pool, alice), before);
}

#[test]
fn withdraw_must_leave_a_debtor_healthy() {
    let mut pool = fresh_pool();
    let mut alice = position_of(ALICE);
    deposit(&mut pool, &mut alice, ALICE, 2, 1_000).unwrap();
    borrow(&mut pool, &mut alice, ALICE, 750_001, 1_000).unwrap();
    let before = (pool, alice);
    assert_eq!(
        withdraw(&mut pool, &mut alice, ALICE, 1, 1_000),
        Err(LendingError::InsufficientCollateral)
    );
    assert_eq!((pool, alice), before);
    repay(&mut pool, &mut alice, ALICE, 1, 1_000).unwrap();
    assert!(withdraw(&mut pool, &mut alice, ALICE, 1, 1_000).is_ok());
    assert_eq!(alice.deposited_amount, 1);
    assert_eq!(pool.total_supply, 1);
}

#[test]
fn repay_more_than_owed_is_an_underflow() {
    let mut pool = fresh_pool();
    let mut alice = position_of(ALICE);
    deposit(&mut pool, &mut alice, ALICE, 1000, 1_000).unwrap();
    borrow(&mut pool, &mut alice, ALICE, 100, 1_000).unwrap();
    let before = (pool, alice);
    assert_eq!(repay(&mut pool, &mut alice, ALICE, 101, 1_000), Err(LendingError::MathUnderflow));
    assert_eq!((pool, alice), before);
    assert!(repay(&mut pool, &mut alice, ALICE, 100, 1_000).is_ok());
    assert_eq!(alice.borrowed_amount, 0);
    assert_eq!(pool.total_borrowed, 0);
}

#[test]
fn liquidating_a_healthy_position_is_refused() {
    let mut pool = fresh_pool();
    let mut alice = position_of(ALICE);
    deposit(&mut pool, &mut alice, ALICE, 1, 1_000).unwrap();
    borrow(&mut pool, &mut alice, ALICE, 750_000, 1_000).unwrap();
    let before = (pool, alice);
    assert_eq!(
        liquidate(&mut pool, &mut alice, ALICE, 10, 0, 1_000),
        Err(LendingError::NotLiquidatable)
    );
    assert_eq!((pool, alice), before);
}

#[test]
fn liquidating_a_position_without_debt_is_refused() {
    let mut pool = fresh_pool();
    let mut alice = position_of(ALICE);
    deposit(&mut pool, &mut alice, ALICE, 1000, 1_000).unwrap();
    assert_eq!(
        liquidate(&mut pool, &mut alice, ALICE, 0, 0, 1_000),
        Err(LendingError::NotLiquidatable)
    );
}

#[test]
fn liquidating_an_unhealthy_position() {
    let mut pool = fresh_pool();
    pool.total_supply = 500;
    pool.total_borrowed = 800_000;
    pool.last_update_time = 7;
    let mut alice = UserPosition { deposited_amount: 1, borrowed_amount: 750_001, ..position_of(ALICE) };
    let event = liquidate(&mut pool, &mut alice, ALICE, 700_000, 1, 7);
    assert_eq!(
        event,
        Ok(LendingEvent { kind: EventKind::Liquidate, amount: 700_000, user: ALICE, timestamp: 7 })
    );
    assert_eq!(pool.total_borrowed, 100_000);
    assert_eq!(pool.total_supply, 499);
    assert_eq!(alice.borrowed_amount, 50_001);
    assert_eq!(alice.deposited_amount, 0);
}

#[test]
fn liquidating_more_than_the_position_holds_is_an_underflow() {
    let mut pool = fresh_pool();
    pool.total_supply = 500;
    pool.total_borrowed = 800_000;
    let mut alice = UserPosition { deposited_amount: 1, borrowed_amount: 750_001, ..position_of(ALICE) };
    let before = (pool, alice);
    assert_eq!(
        liquidate(&mut pool, &mut alice, ALICE, 750_002, 0, 1_000),
        Err(LendingError::MathUnderflow)
    );
    assert_eq!(
        liquidate(&mut pool, &mut alice, ALICE, 1, 2, 1_000),
        Err(LendingError::MathUnderflow)
    );
    assert_eq!((pool, alice), before);
}

#[test]
fn totals_follow_the_positions() {
    let mut pool = fresh_pool();
    let mut alice = position_of(ALICE);
    let mut bob = position_of(BOB);
    deposit(&mut pool, &mut alice, ALICE, 1000, 1_000).unwrap();
    deposit(&mut pool, &mut bob, BOB, 500, 1_000).unwrap();
    borrow(&mut pool, &mut alice, ALICE, 300, 1_000).unwrap();
    borrow(&mut pool, &mut bob, BOB, 200, 1_000).unwrap();
    repay(&mut pool, &mut alice, ALICE, 100, 1_000).unwrap();
    withdraw(&mut pool, &mut bob, BOB, 50, 1_000).unwrap();
    assert_eq!(pool.total_supply, alice.deposited_amount + bob.deposited_amount);
    assert_eq!(pool.total_borrowed, alice.borrowed_amount + bob.borrowed_amount);
    assert_eq!(pool.total_supply, 1450);
    assert_eq!(pool.total_borrowed, 400);
}

#[test]
fn event_kinds_have_their_tags() {
    assert_eq!(EventKind::Deposit.tag(), 0);
    assert_eq!(EventKind::Withdraw.tag(), 1);
    assert_eq!(EventKind::Borrow.tag(), 2);
    assert_eq!(EventKind::Repay.tag(), 3);
    assert_eq!(EventKind::Liquidate.tag(), 4);
}

#[test]
fn apply_does_what_the_operation_names() {
    let mut pool = fresh_pool();
    let mut alice = position_of(ALICE);
    let deposited = apply(Operation::Deposit(2), &mut pool, &mut alice, ALICE, 1_000).unwrap();
    assert_eq!(deposited.kind, EventKind::Deposit);
    assert_eq!((pool.total_supply, alice.deposited_amount), (2, 2));
    let borrowed = apply(Operation::Borrow(750_001), &mut pool, &mut alice, ALICE, 1_000).unwrap();
    assert_eq!(borrowed.kind, EventKind::Borrow);
    assert_eq!((pool.total_borrowed, alice.borrowed_amount), (750_001, 750_001));
    let withdrawn = apply(Operation::Withdraw(1), &mut pool, &mut alice, ALICE, 1_000);
    assert_eq!(withdrawn, Err(LendingError::InsufficientCollateral));
    let repaid = apply(Operation::Repay(1), &mut pool, &mut alice, ALICE, 1_000).unwrap();
    assert_eq!((repaid.kind, repaid.amount), (EventKind::Repay, 1));
    let withdrawn = apply(Operation::Withdraw(1), &mut pool, &mut alice, ALICE, 1_000).unwrap();
    assert_eq!(withdrawn.kind, EventKind::Withdraw);
    assert_eq!((pool.total_supply, alice.deposited_amount), (1, 1));
    assert_eq!(
        apply(Operation::Liquidate(1, 1), &mut pool, &mut alice, ALICE, 1_000),
        Err(LendingError::NotLiquidatable)
    );
    alice.borrowed_amount = 750_001;
    pool.total_borrowed = 750_001;
    let liquidated = apply(Operation::Liquidate(5, 1), &mut pool, &mut alice, ALICE, 1_000).unwrap();
    assert_eq!((liquidated.kind, liquidated.amount), (EventKind::Liquidate, 5));
    assert_eq!((pool.total_supply, pool.total_borrowed), (0, 749_996));
    assert_eq!((alice.deposited_amount, alice.borrowed_amount), (0, 749_996));
}

#[test]
fn a_withdrawal_of_nothing_moves_nothing() {
    let mut pool = fresh_pool();
    let mut alice = position_of(ALICE);
    let before = (pool, alice);
    let event = withdraw(&mut pool, &mut alice, ALICE, 0, 1_000);
    assert_eq!(
        event,
        Ok(LendingEvent { kind: EventKind::Withdraw, amount: 0, user: ALICE, timestamp: 1_000 })
    );
    assert_eq!((pool, alice), before);
}

#[test]
fn the_smallest_amounts_move_one_unit() {
    let mut pool = fresh_pool();
    let mut alice = position_of(ALICE);
    assert!(deposit(&mut pool, &mut alice, ALICE, 1, 1_000).is_ok());
    assert!(borrow(&mut pool, &mut alice, ALICE, 1, 1_000).is_ok());
    assert_eq!((pool.total_supply, pool.total_borrowed), (1, 1));
    assert!(repay(&mut pool, &mut alice, ALICE, 1, 1_000).is_ok());
    assert_eq!((alice.deposited_amount, alice.borrowed_amount), (1, 0));
    assert_eq!((pool.total_supply, pool.total_borrowed), (1, 0));
}

#[test]
fn a_pool_takes_the_largest_percentages() {
    let pool = initialize_pool(MINT, 9, 100, 100, 0, -5);
    assert_eq!((pool.reserve_factor, pool.collateral_factor), (100, 100));
    assert_eq!((pool.liquidity_index, pool.borrow_index), (1_000_000_000, 1_000_000_000));
    assert_eq!(pool.last_update_time, -5);
    let none = initialize_pool(MINT, 9, 0, 0, 0, 0);
    assert_eq!((none.reserve_factor, none.collateral_factor), (0, 0));
}
