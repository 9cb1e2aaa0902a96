//! Read-only projections of a position, as it stands and with a
//! hypothetical deposit or loan added, at a chosen time.
//!
//! A projection to time `at` accrues interest up to `at`, or up to the
//! maturation date if that comes first; projecting to the maturation date
//! gives the position's value at maturity.
use vstd::prelude::*;

use crate::accrual::{
    calculate_simple_interest, collateral_needed, elapsed_between, get_time_period,
    interest_fits, simple_interest,
};
use crate::borrowing::required_collateral;
use crate::error::{ContractError, ContractResult};
use crate::lending::accrual_end;
use crate::state::{BorrowPosition, LendingPosition};
use crate::types::PoolConfig;

verus! {

/// Interest earned at time `at` by a lender whose record is `pos` but whose
/// principal were `principal`.
pub open spec fn projected_earnings(cfg: PoolConfig, at: u64, pos: LendingPosition, principal: int) -> int {
    pos.interest_earned + simple_interest(
        principal,
        cfg.lendinterestrate as int,
        elapsed_between(accrual_end(cfg, at) as int, pos.last_update as int),
    )
}

/// `projected_earnings` can be computed in `u128`.
pub open spec fn earnings_fit(cfg: PoolConfig, at: u64, pos: LendingPosition, principal: int) -> bool {
    interest_fits(
        principal,
        cfg.lendinterestrate as int,
        elapsed_between(accrual_end(cfg, at) as int, pos.last_update as int),
    ) && projected_earnings(cfg, at, pos, principal) <= u128::MAX
}

/// Debt interest owed at time `at` by a borrower whose record is `pos` but
/// whose principal were `principal`.
pub open spec fn projected_debt(cfg: PoolConfig, at: u64, pos: BorrowPosition, principal: int) -> int {
    pos.interest_to_repay + simple_interest(
        principal,
        cfg.debtinterestrate as int,
        elapsed_between(accrual_end(cfg, at) as int, pos.principal_time as int),
    )
}

/// `projected_debt` can be computed in `u128`.
pub open spec fn debt_fits(cfg: PoolConfig, at: u64, pos: BorrowPosition, principal: int) -> bool {
    interest_fits(
        principal,
        cfg.debtinterestrate as int,
        elapsed_between(accrual_end(cfg, at) as int, pos.principal_time as int),
    ) && projected_debt(cfg, at, pos, principal) <= u128::MAX
}

fn project_earnings(cfg: &PoolConfig, at: u64, pos: &LendingPosition, principal: u128) -> (r:
    Option<u128>)
    ensures
        earnings_fit(*cfg, at, *pos, principal as int) ==> r == Some(
            projected_earnings(*cfg, at, *pos, principal as int) as u128,
        ),
        !earnings_fit(*cfg, at, *pos, principal as int) ==> r is None,
{
    let end = if at <= cfg.maturationdate {
        at
    } else {
        cfg.maturationdate
    };
    let elapsed = get_time_period(end, pos.last_update);
    match calculate_simple_interest(principal, cfg.lendinterestrate, elapsed) {
        Some(i) => pos.interest_earned.checked_add(i),
        None => None,
    }
}

fn project_debt(cfg: &PoolConfig, at: u64, pos: &BorrowPosition, principal: u128) -> (r: Option<
    u128,
>)
    ensures
        debt_fits(*cfg, at, *pos, principal as int) ==> r == Some(
            projected_debt(*cfg, at, *pos, principal as int) as u128,
        ),
        !debt_fits(*cfg, at, *pos, principal as int) ==> r is None,
{
    let end = if at <= cfg.maturationdate {
        at
    } else {
        cfg.maturationdate
    };
    let elapsed = get_time_period(end, pos.principal_time);
    match calculate_simple_interest(principal, cfg.debtinterestrate, elapsed) {
        Some(i) => pos.interest_to_repay.checked_add(i),
        None => None,
    }
}

/// A lender's `(principal, interest earned)` at time `at`: what could be
/// withdrawn then.
pub fn get_withdrawable_positions(cfg: &PoolConfig, pos: &LendingPosition, at: u64) -> (r:
    ContractResult<(u128, u128)>)
    ensures
        earnings_fit(*cfg, at, *pos, pos.principal as int) ==> r == Ok::<(u128, u128), ContractError>(
            (pos.principal, projected_earnings(*cfg, at, *pos, pos.principal as int) as u128),
        ),
        !earnings_fit(*cfg, at, *pos, pos.principal as int) ==> r == Err::<(u128, u128), ContractError>(
            ContractError::Overflow {},
        ),
{
    match project_earnings(cfg, at, pos, pos.principal) {
        Some(e) => Ok((pos.principal, e)),
        None => Err(ContractError::Overflow {}),
    }
}

/// Deposit quote: the lender's `(principal, interest earned)` at time `at`,
/// first as the position stands, then with `amount` more lent.
pub fn quote_deposit(cfg: &PoolConfig, pos: &LendingPosition, amount: u128, at: u64) -> (r:
    ContractResult<((u128, u128), (u128, u128))>)
    ensures
        ({
            let with = pos.principal + amount;
            let fits = with <= u128::MAX && earnings_fit(*cfg, at, *pos, pos.principal as int)
                && earnings_fit(*cfg, at, *pos, with);
            &&& fits ==> r == Ok::<((u128, u128), (u128, u128)), ContractError>(
                (
                    (pos.principal, projected_earnings(*cfg, at, *pos, pos.principal as int) as u128),
                    (with as u128, projected_earnings(*cfg, at, *pos, with) as u128),
                ),
            )
            &&& !fits ==> r == Err::<((u128, u128), (u128, u128)), ContractError>(
                ContractError::Overflow {},
            )
        }),
{
    let as_is = match get_withdrawable_positions(cfg, pos, at) {
        Ok(p) => p,
        Err(e) => return Err(e),
    };
    let with = match pos.principal.checked_add(amount) {
        Some(w) => w,
        None => return Err(ContractError::Overflow {}),
    };
    match project_earnings(cfg, at, pos, with) {
        Some(e) => Ok((as_is, (with, e))),
        None => Err(ContractError::Overflow {}),
    }
}

/// A borrower's `(principal, interest owed, collateral posted)` at time
/// `at`: what would have to be repaid then, and the collateral it would
/// release.
pub fn get_repayable_positions(cfg: &PoolConfig, pos: &BorrowPosition, at: u64) -> (r:
    ContractResult<(u128, u128, u128)>)
    ensures
        !pos.consistent() ==> r == Err::<(u128, u128, u128), ContractError>(
            ContractError::InvalidState {},
        ),
        pos.consistent() && debt_fits(*cfg, at, *pos, pos.principal_to_repay as int) ==> r == Ok::<
            (u128, u128, u128),
            ContractError,
        >(
            (
                pos.principal_to_repay,
                projected_debt(*cfg, at, *pos, pos.principal_to_repay as int) as u128,
                pos.collateral_submitted,
            ),
        ),
        pos.consistent() && !debt_fits(*cfg, at, *pos, pos.principal_to_repay as int) ==> r == Err::<
            (u128, u128, u128),
            ContractError,
        >(ContractError::Overflow {}),
{
    if pos.principal_time != pos.collateral_time {
        return Err(ContractError::InvalidState {});
    }
    match project_debt(cfg, at, pos, pos.principal_to_repay) {
        Some(d) => Ok((pos.principal_to_repay, d, pos.collateral_submitted)),
        None => Err(ContractError::Overflow {}),
    }
}

/// The first reason for which a loan quote for `amount` fails; `None` if it
/// can be computed.
pub open spec fn quote_loan_error(cfg: PoolConfig, pos: BorrowPosition, amount: u128, at: u64) -> Option<
    ContractError,
> {
    let with = pos.principal_to_repay + amount;
    if !pos.consistent() {
        Some(ContractError::InvalidState {})
    } else if cfg.strikeprice == 0 {
        Some(ContractError::DivideByZero {})
    } else if amount * cfg.overcollateralizationfactor > u128::MAX || with > u128::MAX
        || pos.collateral_submitted + required_collateral(cfg, amount) > u128::MAX || !debt_fits(
        cfg,
        at,
        pos,
        pos.principal_to_repay as int,
    ) || !debt_fits(cfg, at, pos, with) {
        Some(ContractError::Overflow {})
    } else {
        None
    }
}

/// Loan quote: the borrower's `(principal, interest owed, collateral
/// posted)` at time `at`, first as the position stands, then with `amount`
/// more borrowed and the collateral that requires.
pub fn quote_loan(cfg: &PoolConfig, pos: &BorrowPosition, amount: u128, at: u64) -> (r:
    ContractResult<((u128, u128, u128), (u128, u128, u128))>)
    ensures
        match r {
            Ok((as_is, with)) => quote_loan_error(*cfg, *pos, amount, at) is None && as_is == (
                pos.principal_to_repay,
                projected_debt(*cfg, at, *pos, pos.principal_to_repay as int) as u128,
                pos.collateral_submitted,
            ) && with == (
                (pos.principal_to_repay + amount) as u128,
                projected_debt(*cfg, at, *pos, pos.principal_to_repay + amount) as u128,
                (pos.collateral_submitted + required_collateral(*cfg, amount)) as u128,
            ),
            Err(e) => quote_loan_error(*cfg, *pos, amount, at) == Some(e),
        },
{
    if pos.principal_time != pos.collateral_time {
        return Err(ContractError::InvalidState {});
    }
    if cfg.strikeprice == 0 {
        return Err(ContractError::DivideByZero {});
    }
    let as_is = match get_repayable_positions(cfg, pos, at) {
        Ok(p) => p,
        Err(e) => return Err(e),
    };
    let needed = match collateral_needed(amount, cfg.strikeprice, cfg.overcollateralizationfactor) {
        Some(n) => n,
        None => return Err(ContractError::Overflow {}),
    };
    let with = match pos.principal_to_repay.checked_add(amount) {
        Some(w) => w,
        None => return Err(ContractError::Overflow {}),
    };
    let collateral = match pos.collateral_submitted.checked_add(needed) {
        Some(c) => c,
        None => return Err(ContractError::Overflow {}),
    };
    match project_debt(cfg, at, pos, with) {
        Some(d) => Ok((as_is, (with, d, collateral))),
        None => Err(ContractError::Overflow {}),
    }
}

} // verus!
