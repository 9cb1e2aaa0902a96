//! The closed set of reasons for which a handler rejects a call.
use vstd::prelude::*;

use crate::state::Denom;

verus! {

/// Why a call was rejected. A rejected call changes nothing.
///
/// `Overflow` and `DivideByZero` are arithmetic faults; the other variants
/// are business-rule rejections.
#[derive(Debug, Clone, Copy, PartialEq, Eq, Structural)]
pub enum ContractError {
    InvalidAsset {},
    InvalidCollateral {},
    Unauthorized {},
    AllowanceExpired {},
    InvalidFunds { denom: Denom },
    InsufficientAllowance {},
    PoolMatured {},
    PoolNotMatured {},
    Overflow {},
    DivideByZero {},
    ExcessiveFunds {},
    CollateralForfeited {},
    InvalidState {},
    InsufficientOCF {},
    InsufficientCollateral {},
    InsufficientFunds {},
    PositionNotAvailable {},
    LockinTimePeriodActive { last_time: u64, now: u64, maturation_date: u64 },
}

/// Result of a handler or a quote.
pub type ContractResult<T> = Result<T, ContractError>;

} // verus!
