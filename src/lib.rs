//! Position ledger and accrual engine of a fixed-maturity lending pool.
//!
//! Lenders deposit an asset until the pool's maturation date and earn simple
//! interest; borrowers post collateral to borrow the asset and repay principal
//! plus interest before maturation, or forfeit the collateral.
//!
//! Every handler is a transition over one account's record and the pool-wide
//! aggregates. Handlers check all of their preconditions before they write,
//! so a rejected call leaves the state exactly as it was.

pub mod accrual;
pub mod borrowing;
pub mod error;
pub mod funds;
pub mod lending;
pub mod oracle;
pub mod pool;
pub mod quoters;
pub mod state;
pub mod types;

pub use accrual::{calculate_simple_interest, collateral_needed, get_time_period, SECONDS_IN_YEAR};
pub use borrowing::{borrow, quote_repay, repay};
pub use error::{ContractError, ContractResult};
pub use funds::{attached_amount, AttachedCoin};
pub use lending::{deposit, withdraw, withdraw_interest};
pub use oracle::{ExternalOracleQueryMsg, ExternalPriceResponse};
pub use pool::{add_liquidity, liquidate};
pub use quoters::{get_repayable_positions, get_withdrawable_positions, quote_deposit, quote_loan};
pub use state::{BorrowPosition, Denom, LendingPosition, Payout, PoolTotals};
pub use types::{CoinConfig, PoolConfig};
