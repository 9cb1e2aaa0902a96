//! Deposit, Withdraw and WithdrawInterest: the transitions of a lender's
//! record.
use vstd::prelude::*;

use crate::accrual::{
    calculate_simple_interest, elapsed_between, get_time_period, interest_fits, simple_interest,
};
use crate::error::{ContractError, ContractResult};
use crate::state::{payout_if_any, push_payout, Denom, LendingPosition, Payout, PoolTotals};
use crate::types::PoolConfig;

verus! {

/// Interest stops accruing at maturation: the later of the two times is cut
/// back to the maturation date.
pub open spec fn accrual_end(cfg: PoolConfig, now: u64) -> u64 {
    if now <= cfg.maturationdate {
        now
    } else {
        cfg.maturationdate
    }
}

/// Lending interest accrued on the principal from its last update to `end`.
pub open spec fn accrued_lend_interest(cfg: PoolConfig, end: u64, pos: LendingPosition) -> int {
    simple_interest(
        pos.principal as int,
        cfg.lendinterestrate as int,
        elapsed_between(end as int, pos.last_update as int),
    )
}

/// The accrual of `accrued_lend_interest` fits in `u128`.
pub open spec fn lend_accrual_fits(cfg: PoolConfig, end: u64, pos: LendingPosition) -> bool {
    interest_fits(
        pos.principal as int,
        cfg.lendinterestrate as int,
        elapsed_between(end as int, pos.last_update as int),
    )
}

/// The first reason for which a Deposit of `amount` at `now` is rejected;
/// `None` if it goes through.
pub open spec fn deposit_error(
    cfg: PoolConfig,
    now: u64,
    pos: LendingPosition,
    totals: PoolTotals,
    amount: u128,
) -> Option<ContractError> {
    if now > cfg.maturationdate {
        Some(ContractError::PoolMatured {})
    } else if !lend_accrual_fits(cfg, now, pos) || pos.interest_earned + accrued_lend_interest(
        cfg,
        now,
        pos,
    ) > u128::MAX || pos.principal + amount > u128::MAX || totals.asset_available + amount
        > u128::MAX {
        Some(ContractError::Overflow {})
    } else {
        None
    }
}

/// The lender's record and the pool aggregates after a Deposit; unchanged
/// when it is rejected.
pub open spec fn deposit_next(
    cfg: PoolConfig,
    now: u64,
    pos: LendingPosition,
    totals: PoolTotals,
    amount: u128,
) -> (LendingPosition, PoolTotals) {
    if deposit_error(cfg, now, pos, totals, amount) is Some {
        (pos, totals)
    } else {
        (
            LendingPosition {
                principal: (pos.principal + amount) as u128,
                last_update: now,
                interest_earned: (pos.interest_earned + accrued_lend_interest(
                    cfg,
                    now,
                    pos,
                )) as u128,
            },
            PoolTotals { asset_available: (totals.asset_available + amount) as u128, ..totals },
        )
    }
}

/// Lend `amount` of the asset, attached to the call, at time `now`.
///
/// Interest on the principal already lent is accrued up to `now`; the
/// principal grows by `amount` and its timestamp becomes `now`.
pub fn deposit(
    cfg: &PoolConfig,
    now: u64,
    pos: &mut LendingPosition,
    totals: &mut PoolTotals,
    amount: u128,
) -> (r: ContractResult<()>)
    ensures
        (*final(pos), *final(totals)) == deposit_next(*cfg, now, *old(pos), *old(totals), amount),
        now > cfg.maturationdate ==> r == Err::<(), ContractError>(ContractError::PoolMatured {})
            && *final(pos) == *old(pos) && *final(totals) == *old(totals),
        match r {
            Ok(()) => deposit_error(*cfg, now, *old(pos), *old(totals), amount) is None,
            Err(e) => deposit_error(*cfg, now, *old(pos), *old(totals), amount) == Some(e),
        },
{
    if now > cfg.maturationdate {
        return Err(ContractError::PoolMatured {});
    }
    let elapsed = get_time_period(now, pos.last_update);
    let accrued = match calculate_simple_interest(pos.principal, cfg.lendinterestrate, elapsed) {
        Some(i) => i,
        None => return Err(ContractError::Overflow {}),
    };
    let earned = match pos.interest_earned.checked_add(accrued) {
        Some(v) => v,
        None => return Err(ContractError::Overflow {}),
    };
    let principal = match pos.principal.checked_add(amount) {
        Some(v) => v,
        None => return Err(ContractError::Overflow {}),
    };
    let asset_available = match totals.asset_available.checked_add(amount) {
        Some(v) => v,
        None => return Err(ContractError::Overflow {}),
    };
    *pos = LendingPosition { principal, last_update: now, interest_earned: earned };
    totals.asset_available = asset_available;
    Ok(())
}

/// End of the lock-in that follows the last update of `pos`:
/// `lock_in_period` percent of the time then left to maturation.
pub open spec fn lock_in_end(cfg: PoolConfig, pos: LendingPosition) -> int {
    pos.last_update + cfg.lock_in_period * elapsed_between(
        cfg.maturationdate as int,
        pos.last_update as int,
    ) / 100
}

/// The first reason for which a Withdraw of `amount` at `now` is rejected;
/// `None` if it goes through.
pub open spec fn withdraw_error(
    cfg: PoolConfig,
    now: u64,
    pos: LendingPosition,
    totals: PoolTotals,
    amount: u128,
) -> Option<ContractError> {
    let end = accrual_end(cfg, now);
    if now < lock_in_end(cfg, pos) {
        Some(
            ContractError::LockinTimePeriodActive {
                last_time: pos.last_update,
                now,
                maturation_date: cfg.maturationdate,
            },
        )
    } else if pos.principal == 0 {
        Some(ContractError::PositionNotAvailable {})
    } else if amount > pos.principal {
        Some(ContractError::InsufficientFunds {})
    } else if !lend_accrual_fits(cfg, end, pos) || pos.interest_earned + accrued_lend_interest(
        cfg,
        end,
        pos,
    ) > u128::MAX || totals.asset_available < amount {
        Some(ContractError::Overflow {})
    } else {
        None
    }
}

/// The lender's record and the pool aggregates after a Withdraw; unchanged
/// when it is rejected.
pub open spec fn withdraw_next(
    cfg: PoolConfig,
    now: u64,
    pos: LendingPosition,
    totals: PoolTotals,
    amount: u128,
) -> (LendingPosition, PoolTotals) {
    if withdraw_error(cfg, now, pos, totals, amount) is Some {
        (pos, totals)
    } else {
        (
            LendingPosition {
                principal: (pos.principal - amount) as u128,
                last_update: now,
                interest_earned: (pos.interest_earned + accrued_lend_interest(
                    cfg,
                    accrual_end(cfg, now),
                    pos,
                )) as u128,
            },
            PoolTotals { asset_available: (totals.asset_available - amount) as u128, ..totals },
        )
    }
}

/// Whether `now` falls inside the lock-in that follows the last update.
fn lock_in_active(cfg: &PoolConfig, now: u64, pos: &LendingPosition) -> (r: bool)
    ensures
        r == (now < lock_in_end(*cfg, *pos)),
{
    let span = get_time_period(cfg.maturationdate, pos.last_update);
    match cfg.lock_in_period.checked_mul(span as u128) {
        Some(x) => (now as u128) < (pos.last_update as u128) + x / 100,
        None => {
            proof {
                let big: int = u128::MAX + 1;
                assert(big / 100 > u64::MAX);
                vstd::arithmetic::div_mod::lemma_div_is_ordered(
                    big,
                    cfg.lock_in_period * span,
                    100,
                );
            }
            true
        },
    }
}

/// Withdraw `amount` of the lent principal at time `now`.
///
/// Rejected while the lock-in is active, when there is no principal, or when
/// `amount` exceeds it. Interest is accrued up to `now`, or up to the
/// maturation date if that came first; the principal shrinks by `amount`,
/// its timestamp becomes `now`, and `amount` is sent back.
pub fn withdraw(
    cfg: &PoolConfig,
    now: u64,
    pos: &mut LendingPosition,
    totals: &mut PoolTotals,
    amount: u128,
) -> (r: ContractResult<Vec<Payout>>)
    ensures
        (*final(pos), *final(totals)) == withdraw_next(*cfg, now, *old(pos), *old(totals), amount),
        now >= lock_in_end(*cfg, *old(pos)) && old(pos).principal == 0 ==> r == Err::<
            Vec<Payout>,
            ContractError,
        >(ContractError::PositionNotAvailable {}) && *final(pos) == *old(pos) && *final(totals)
            == *old(totals),
        now >= lock_in_end(*cfg, *old(pos)) && 0 < old(pos).principal < amount ==> r == Err::<
            Vec<Payout>,
            ContractError,
        >(ContractError::InsufficientFunds {}) && *final(pos) == *old(pos) && *final(totals)
            == *old(totals),
        match r {
            Ok(payouts) => withdraw_error(*cfg, now, *old(pos), *old(totals), amount) is None
                && payouts@ == payout_if_any(Denom::Asset, amount as int),
            Err(e) => withdraw_error(*cfg, now, *old(pos), *old(totals), amount) == Some(e),
        },
{
    if lock_in_active(cfg, now, pos) {
        return Err(
            ContractError::LockinTimePeriodActive {
                last_time: pos.last_update,
                now,
                maturation_date: cfg.maturationdate,
            },
        );
    }
    if pos.principal == 0 {
        return Err(ContractError::PositionNotAvailable {});
    }
    if amount > pos.principal {
        return Err(ContractError::InsufficientFunds {});
    }
    let end = if now <= cfg.maturationdate {
        now
    } else {
        cfg.maturationdate
    };
    let elapsed = get_time_period(end, pos.last_update);
    let accrued = match calculate_simple_interest(pos.principal, cfg.lendinterestrate, elapsed) {
        Some(i) => i,
        None => return Err(ContractError::Overflow {}),
    };
    let earned = match pos.interest_earned.checked_add(accrued) {
        Some(v) => v,
        None => return Err(ContractError::Overflow {}),
    };
    if totals.asset_available < amount {
        return Err(ContractError::Overflow {});
    }
    *pos = LendingPosition {
        principal: pos.principal - amount,
        last_update: now,
        interest_earned: earned,
    };
    totals.asset_available = totals.asset_available - amount;
    let mut payouts: Vec<Payout> = Vec::new();
    push_payout(&mut payouts, Denom::Asset, amount);
    Ok(payouts)
}

/// Withdraw all interest earned so far: the balance is reset to zero and
/// sent back (nothing is sent when it is zero).
pub fn withdraw_interest(pos: &mut LendingPosition) -> (r: Vec<Payout>)
    ensures
        *final(pos) == (LendingPosition { interest_earned: 0, ..*old(pos) }),
        r@ == payout_if_any(Denom::Asset, old(pos).interest_earned as int),
{
    let earned = pos.interest_earned;
    pos.interest_earned = 0;
    let mut payouts: Vec<Payout> = Vec::new();
    push_payout(&mut payouts, Denom::Asset, earned);
    payouts
}

/// A first deposit of `amount` at `now` is accepted exactly when the pool has
/// not matured and the asset aggregate can take `amount`; it then records a
/// principal of `amount`, no interest, and `now` as the last update.
pub proof fn lemma_fresh_deposit(cfg: PoolConfig, now: u64, totals: PoolTotals, amount: u128)
    ensures
        ({
            let fresh = LendingPosition { principal: 0, last_update: 0, interest_earned: 0 };
            let (pos, _) = deposit_next(cfg, now, fresh, totals, amount);
            &&& (deposit_error(cfg, now, fresh, totals, amount) is None) == (now
                <= cfg.maturationdate && totals.asset_available + amount <= u128::MAX)
            &&& deposit_error(cfg, now, fresh, totals, amount) is None ==> pos == (LendingPosition {
                principal: amount,
                last_update: now,
                interest_earned: 0,
            })
        }),
{
    crate::accrual::lemma_no_interest_without_principal(
        cfg.lendinterestrate as int,
        elapsed_between(now as int, 0),
    );
}

} // verus!
