//! The records the pool keeps: the pool itself, one position per user, the
//! event written after each transition, and the error kinds.

use vstd::prelude::*;

verus! {

/// Scale of the two compounding indices: an index of `INDEX_SCALE` is 1.0.
pub const INDEX_SCALE: u64 = 1_000_000_000;

/// Seconds in a year of 365 days, the period the rates are quoted for.
pub const SECONDS_PER_YEAR: u64 = 31_536_000;

/// Health factor at which a position breaks even. At or above it the
/// position is safely collateralized, below it the position may be liquidated.
pub const HEALTH_THRESHOLD: u64 = 100;

/// Why an operation was refused. Every error leaves the state untouched.
#[derive(Clone, Copy, Debug, PartialEq, Eq)]
pub enum LendingError {
    /// A sum or product does not fit its field.
    MathOverflow,
    /// A difference would be negative.
    MathUnderflow,
    /// A quotient has a zero divisor.
    DivisionByZero,
    BorrowLimitExceeded,
    /// The debt asked for would take the position under the health threshold.
    InsufficientCollateral,
    /// The position is at or above the health threshold.
    NotLiquidatable,
    Unauthorized,
    AccountNotInitialized,
    AccountDataTooSmall,
    InvalidOraclePrice,
    InvalidTimestamp,
    /// The token ledger refused to move the funds.
    TransferFailed,
}

/// One pool of a single asset.
#[derive(Clone, Copy, Debug, PartialEq, Eq)]
pub struct LendingPool {
    /// Address of the asset's mint.
    pub mint: [u8; 32],
    pub decimals: u8,
    /// Nominal sum of all deposits, in base units.
    pub total_supply: u64,
    /// Nominal sum of all debts, in base units.
    pub total_borrowed: u64,
    /// Cumulative growth attributed to suppliers, scaled by `INDEX_SCALE`.
    pub liquidity_index: u128,
    /// Cumulative growth attributed to borrowers, scaled by `INDEX_SCALE`.
    pub borrow_index: u128,
    /// Percentage of interest kept as reserve.
    pub reserve_factor: u8,
    /// Percentage of a deposit's value that counts as borrowing power.
    pub collateral_factor: u8,
    /// Unix time of the last accrual.
    pub last_update_time: i64,
    /// Annualized base rate.
    pub base_rate: u64,
}

impl LendingPool {
    /// Both percentages are at most 100 and neither index is below its
    /// starting value.
    pub open spec fn valid(&self) -> bool {
        &&& self.reserve_factor <= 100
        &&& self.collateral_factor <= 100
        &&& self.liquidity_index >= INDEX_SCALE
        &&& self.borrow_index >= INDEX_SCALE
    }
}

impl Default for LendingPool {
    /// The all-zero record.
    fn default() -> (r: LendingPool)
        ensures
            r.mint@ == Seq::new(32, |i: int| 0u8),
            r.decimals == 0,
            r.total_supply == 0,
            r.total_borrowed == 0,
            r.liquidity_index == 0,
            r.borrow_index == 0,
            r.reserve_factor == 0,
            r.collateral_factor == 0,
            r.last_update_time == 0,
            r.base_rate == 0,
    {
        let r = LendingPool {
            mint: [0u8; 32],
            decimals: 0,
            total_supply: 0,
            total_borrowed: 0,
            liquidity_index: 0,
            borrow_index: 0,
            reserve_factor: 0,
            collateral_factor: 0,
            last_update_time: 0,
            base_rate: 0,
        };
        assert(r.mint@ =~= Seq::new(32, |i: int| 0u8));
        r
    }
}

/// The balances of one user in one pool. A position with zero balances is a
/// valid steady state.
#[derive(Clone, Copy, Debug, PartialEq, Eq)]
pub struct UserPosition {
    pub user: [u8; 32],
    pub pool: [u8; 32],
    /// Nominal deposit, in base units.
    pub deposited_amount: u64,
    /// Nominal debt, in base units.
    pub borrowed_amount: u64,
    /// Whether the deposit counts toward borrowing power.
    pub collateral_enabled: bool,
    pub last_update_time: i64,
}

impl Default for UserPosition {
    /// The position a user starts with: no deposit and no debt.
    fn default() -> (r: UserPosition)
        ensures
            r.user@ == Seq::new(32, |i: int| 0u8),
            r.pool@ == Seq::new(32, |i: int| 0u8),
            r.deposited_amount == 0,
            r.borrowed_amount == 0,
            !r.collateral_enabled,
            r.last_update_time == 0,
    {
        let r = UserPosition {
            user: [0u8; 32],
            pool: [0u8; 32],
            deposited_amount: 0,
            borrowed_amount: 0,
            collateral_enabled: false,
            last_update_time: 0,
        };
        assert(r.user@ =~= Seq::new(32, |i: int| 0u8));
        assert(r.pool@ =~= Seq::new(32, |i: int| 0u8));
        r
    }
}

/// The kind of a state transition.
#[derive(Clone, Copy, Debug, PartialEq, Eq)]
pub enum EventKind {
    Deposit,
    Withdraw,
    Borrow,
    Repay,
    Liquidate,
}

impl EventKind {
    /// The one-byte tag of the kind in a serialized event.
    pub open spec fn tag_spec(self) -> u8 {
        match self {
            EventKind::Deposit => 0,
            EventKind::Withdraw => 1,
            EventKind::Borrow => 2,
            EventKind::Repay => 3,
            EventKind::Liquidate => 4,
        }
    }

    /// The kind with this tag, if the tag is one of the five.
    pub fn from_tag(tag: u8) -> (kind: Option<EventKind>)
        ensures
            tag <= 4 <==> kind.is_some(),
            kind.is_some() ==> kind.unwrap().tag_spec() == tag,
    {
        if tag == 0 {
            Some(EventKind::Deposit)
        } else if tag == 1 {
            Some(EventKind::Withdraw)
        } else if tag == 2 {
            Some(EventKind::Borrow)
        } else if tag == 3 {
            Some(EventKind::Repay)
        } else if tag == 4 {
            Some(EventKind::Liquidate)
        } else {
            None
        }
    }

    pub fn tag(self) -> (t: u8)
        ensures
            t == self.tag_spec(),
    {
        match self {
            EventKind::Deposit => 0,
            EventKind::Withdraw => 1,
            EventKind::Borrow => 2,
            EventKind::Repay => 3,
            EventKind::Liquidate => 4,
        }
    }
}

/// The record of one successful transition. It is written once and never
/// changed.
#[derive(Clone, Copy, Debug, PartialEq, Eq)]
pub struct LendingEvent {
    pub kind: EventKind,
    /// The amount that moved.
    pub amount: u64,
    pub user: [u8; 32],
    pub timestamp: i64,
}

} // verus!
