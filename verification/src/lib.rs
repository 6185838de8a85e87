//! Accounting core of a collateralized lending pool.
//!
//! The crate keeps the aggregate and per-user balances of one pool, accrues
//! interest over time, evaluates collateral health and authorises
//! liquidations. Every state transition is all-or-nothing: a call either
//! returns the event to record and the updated state, or an error and the
//! state it was given.

pub mod math;
pub mod model;
pub mod encoding;
pub mod risk;
pub mod interest;
pub mod ledger;
pub mod laws;

pub use crate::interest::{accrue_interest, calculate_interest_rate};
pub use crate::ledger::{apply, borrow, deposit, initialize_pool, liquidate, repay, withdraw, Operation};
pub use crate::encoding::record_bytes;
pub use crate::model::{EventKind, LendingError, LendingEvent, LendingPool, UserPosition};
pub use crate::risk::{calculate_health_factor, check_before_borrow, check_liquidatable, get_oracle_price};
