//! Borrow and Repay: the transitions of a borrower's record.
use vstd::prelude::*;

use crate::accrual::{
    calculate_simple_interest, collateral_for, collateral_needed, elapsed_between,
    get_time_period, interest_fits, simple_interest,
};
use crate::error::{ContractError, ContractResult};
use crate::state::{payout_if_any, push_payout, BorrowPosition, Denom, Payout, PoolTotals};
use crate::types::PoolConfig;

verus! {

/// Debt interest accrued on the outstanding principal from its last update
/// to `now`.
pub open spec fn accrued_debt_interest(cfg: PoolConfig, now: u64, pos: BorrowPosition) -> int {
    simple_interest(
        pos.principal_to_repay as int,
        cfg.debtinterestrate as int,
        elapsed_between(now as int, pos.principal_time as int),
    )
}

/// The accrual of `accrued_debt_interest` fits in `u128`.
pub open spec fn debt_accrual_fits(cfg: PoolConfig, now: u64, pos: BorrowPosition) -> bool {
    interest_fits(
        pos.principal_to_repay as int,
        cfg.debtinterestrate as int,
        elapsed_between(now as int, pos.principal_time as int),
    )
}

/// Collateral required to borrow `amount` under `cfg`.
pub open spec fn required_collateral(cfg: PoolConfig, amount: u128) -> int {
    collateral_for(amount as int, cfg.strikeprice as int, cfg.overcollateralizationfactor as int)
}

/// The first reason, in the order the checks are made, for which a Borrow
/// of `amount` with `sent` collateral attached is rejected; `None` if it
/// goes through.
pub open spec fn borrow_error(
    cfg: PoolConfig,
    now: u64,
    pos: BorrowPosition,
    totals: PoolTotals,
    amount: u128,
    sent: u128,
) -> Option<ContractError> {
    let needed = required_collateral(cfg, amount);
    if now > cfg.maturationdate {
        Some(ContractError::PoolMatured {})
    } else if totals.asset_available < amount {
        Some(ContractError::InsufficientFunds {})
    } else if cfg.overcollateralizationfactor < 1 {
        Some(ContractError::InsufficientOCF {})
    } else if !pos.consistent() {
        Some(ContractError::InvalidState {})
    } else if cfg.strikeprice == 0 {
        Some(ContractError::DivideByZero {})
    } else if amount * cfg.overcollateralizationfactor > u128::MAX {
        Some(ContractError::Overflow {})
    } else if sent < needed {
        Some(ContractError::InsufficientCollateral {})
    } else if !debt_accrual_fits(cfg, now, pos) || pos.interest_to_repay + accrued_debt_interest(
        cfg,
        now,
        pos,
    ) > u128::MAX || pos.principal_to_repay + amount > u128::MAX || pos.collateral_submitted
        + needed > u128::MAX || totals.collateral_available + needed > u128::MAX {
        Some(ContractError::Overflow {})
    } else {
        None
    }
}

/// The borrower's record and the pool aggregates after a Borrow; unchanged
/// when it is rejected.
pub open spec fn borrow_next(
    cfg: PoolConfig,
    now: u64,
    pos: BorrowPosition,
    totals: PoolTotals,
    amount: u128,
    sent: u128,
) -> (BorrowPosition, PoolTotals) {
    let needed = required_collateral(cfg, amount);
    if borrow_error(cfg, now, pos, totals, amount, sent) is Some {
        (pos, totals)
    } else {
        (
            BorrowPosition {
                principal_to_repay: (pos.principal_to_repay + amount) as u128,
                principal_time: now,
                interest_to_repay: (pos.interest_to_repay + accrued_debt_interest(
                    cfg,
                    now,
                    pos,
                )) as u128,
                collateral_submitted: (pos.collateral_submitted + needed) as u128,
                collateral_time: now,
            },
            PoolTotals {
                asset_available: (totals.asset_available - amount) as u128,
                collateral_available: (totals.collateral_available + needed) as u128,
            },
        )
    }
}

/// What a successful Borrow sends back: the borrowed asset, and the
/// collateral sent beyond what was needed.
pub open spec fn borrow_payouts(cfg: PoolConfig, amount: u128, sent: u128) -> Seq<Payout> {
    payout_if_any(Denom::Asset, amount as int) + payout_if_any(
        Denom::Collateral,
        sent - required_collateral(cfg, amount),
    )
}

/// Borrow `amount` of the asset against `sent` units of collateral attached
/// to the call, at time `now`.
///
/// Interest on the principal already owed is accrued up to `now`; the
/// principal grows by `amount`, the posted collateral by
/// `amount * ocf / strike`, and both timestamps become `now`.
pub fn borrow(
    cfg: &PoolConfig,
    now: u64,
    pos: &mut BorrowPosition,
    totals: &mut PoolTotals,
    amount: u128,
    sent: u128,
) -> (r: ContractResult<Vec<Payout>>)
    ensures
        (*final(pos), *final(totals)) == borrow_next(*cfg, now, *old(pos), *old(totals), amount, sent),
        r is Ok ==> final(pos).consistent(),
        now > cfg.maturationdate ==> r == Err::<Vec<Payout>, ContractError>(
            ContractError::PoolMatured {},
        ) && *final(pos) == *old(pos) && *final(totals) == *old(totals),
        match r {
            Ok(payouts) => borrow_error(*cfg, now, *old(pos), *old(totals), amount, sent) is None
                && payouts@ == borrow_payouts(*cfg, amount, sent),
            Err(e) => borrow_error(*cfg, now, *old(pos), *old(totals), amount, sent) == Some(e),
        },
{
    if now > cfg.maturationdate {
        return Err(ContractError::PoolMatured {});
    }
    if totals.asset_available < amount {
        return Err(ContractError::InsufficientFunds {});
    }
    if cfg.overcollateralizationfactor < 1 {
        return Err(ContractError::InsufficientOCF {});
    }
    if pos.principal_time != pos.collateral_time {
        return Err(ContractError::InvalidState {});
    }
    if cfg.strikeprice == 0 {
        return Err(ContractError::DivideByZero {});
    }
    let needed = match collateral_needed(amount, cfg.strikeprice, cfg.overcollateralizationfactor) {
        Some(n) => n,
        None => return Err(ContractError::Overflow {}),
    };
    if sent < needed {
        return Err(ContractError::InsufficientCollateral {});
    }
    let elapsed = get_time_period(now, pos.principal_time);
    let accrued = match calculate_simple_interest(
        pos.principal_to_repay,
        cfg.debtinterestrate,
        elapsed,
    ) {
        Some(i) => i,
        None => return Err(ContractError::Overflow {}),
    };
    let interest = match pos.interest_to_repay.checked_add(accrued) {
        Some(v) => v,
        None => return Err(ContractError::Overflow {}),
    };
    let principal = match pos.principal_to_repay.checked_add(amount) {
        Some(v) => v,
        None => return Err(ContractError::Overflow {}),
    };
    let collateral = match pos.collateral_submitted.checked_add(needed) {
        Some(v) => v,
        None => return Err(ContractError::Overflow {}),
    };
    let collateral_available = match totals.collateral_available.checked_add(needed) {
        Some(v) => v,
        None => return Err(ContractError::Overflow {}),
    };
    *pos = BorrowPosition {
        principal_to_repay: principal,
        principal_time: now,
        interest_to_repay: interest,
        collateral_submitted: collateral,
        collateral_time: now,
    };
    *totals = PoolTotals {
        asset_available: totals.asset_available - amount,
        collateral_available,
    };
    let mut payouts: Vec<Payout> = Vec::new();
    push_payout(&mut payouts, Denom::Asset, amount);
    push_payout(&mut payouts, Denom::Collateral, sent - needed);
    Ok(payouts)
}

/// Debt interest owed at `now`: what was recorded plus what accrued since.
pub open spec fn interest_owed(cfg: PoolConfig, now: u64, pos: BorrowPosition) -> int {
    pos.interest_to_repay + accrued_debt_interest(cfg, now, pos)
}

/// The part of a payment of `paid` that settles interest: interest is
/// settled first.
pub open spec fn interest_settled(cfg: PoolConfig, now: u64, pos: BorrowPosition, paid: u128) -> int {
    if paid <= interest_owed(cfg, now, pos) {
        paid as int
    } else {
        interest_owed(cfg, now, pos)
    }
}

/// The part of a payment of `paid` that repays principal.
pub open spec fn principal_repaid(cfg: PoolConfig, now: u64, pos: BorrowPosition, paid: u128) -> int {
    paid - interest_settled(cfg, now, pos, paid)
}

/// Collateral released when `repaid` of the principal is paid back: the same
/// share of the posted collateral, floored, and all of it once the principal
/// is paid in full.
pub open spec fn collateral_released(pos: BorrowPosition, repaid: int) -> int {
    if repaid == pos.principal_to_repay {
        pos.collateral_submitted as int
    } else {
        pos.collateral_submitted * repaid / (pos.principal_to_repay as int)
    }
}

/// The first reason, in the order the checks are made, for which a payment
/// of `paid` against `pos` at `now` is rejected, leaving the pool aggregates
/// aside; `None` if it goes through.
pub open spec fn repayment_error(cfg: PoolConfig, now: u64, pos: BorrowPosition, paid: u128) -> Option<
    ContractError,
> {
    let repaid = principal_repaid(cfg, now, pos, paid);
    if now > cfg.maturationdate {
        Some(ContractError::CollateralForfeited {})
    } else if pos.principal_to_repay == 0 && pos.interest_to_repay == 0 {
        Some(ContractError::PositionNotAvailable {})
    } else if !pos.consistent() {
        Some(ContractError::InvalidState {})
    } else if cfg.overcollateralizationfactor < 1 {
        Some(ContractError::InsufficientOCF {})
    } else if !debt_accrual_fits(cfg, now, pos) || interest_owed(cfg, now, pos) > u128::MAX {
        Some(ContractError::Overflow {})
    } else if repaid > pos.principal_to_repay {
        Some(ContractError::ExcessiveFunds {})
    } else if repaid != pos.principal_to_repay && pos.collateral_submitted * repaid > u128::MAX {
        Some(ContractError::Overflow {})
    } else {
        None
    }
}

/// The first reason for which a Repay of `paid` is rejected; `None` if it
/// goes through.
pub open spec fn repay_error(
    cfg: PoolConfig,
    now: u64,
    pos: BorrowPosition,
    totals: PoolTotals,
    paid: u128,
) -> Option<ContractError> {
    let repaid = principal_repaid(cfg, now, pos, paid);
    if repayment_error(cfg, now, pos, paid) is Some {
        repayment_error(cfg, now, pos, paid)
    } else if totals.asset_available + repaid > u128::MAX || totals.collateral_available
        < collateral_released(pos, repaid) {
        Some(ContractError::Overflow {})
    } else {
        None
    }
}

/// The borrower's record and the pool aggregates after a Repay; unchanged
/// when it is rejected.
pub open spec fn repay_next(
    cfg: PoolConfig,
    now: u64,
    pos: BorrowPosition,
    totals: PoolTotals,
    paid: u128,
) -> (BorrowPosition, PoolTotals) {
    let repaid = principal_repaid(cfg, now, pos, paid);
    let released = collateral_released(pos, repaid);
    if repay_error(cfg, now, pos, totals, paid) is Some {
        (pos, totals)
    } else {
        (
            BorrowPosition {
                principal_to_repay: (pos.principal_to_repay - repaid) as u128,
                principal_time: now,
                interest_to_repay: (interest_owed(cfg, now, pos) - interest_settled(
                    cfg,
                    now,
                    pos,
                    paid,
                )) as u128,
                collateral_submitted: (pos.collateral_submitted - released) as u128,
                collateral_time: now,
            },
            PoolTotals {
                asset_available: (totals.asset_available + repaid) as u128,
                collateral_available: (totals.collateral_available - released) as u128,
            },
        )
    }
}

proof fn lemma_share_within(c: int, r: int, p: int)
    requires
        c >= 0,
        0 <= r < p,
    ensures
        0 <= c * r / p <= c,
{
    assert(0 <= c * r <= c * p) by (nonlinear_arith)
        requires
            c >= 0,
            0 <= r < p,
    ;
    vstd::arithmetic::div_mod::lemma_div_is_ordered(c * r, c * p, p);
    assert(c * p == p * c) by (nonlinear_arith);
    vstd::arithmetic::div_mod::lemma_div_multiples_vanish(c, p);
    vstd::arithmetic::div_mod::lemma_div_pos_is_pos(c * r, p);
}

/// What a payment of `paid` against `pos` would do at `now`, as
/// `(interest settled, principal repaid, collateral released)`, without
/// changing anything.
///
/// Accrued interest is settled first, the rest of the payment repays
/// principal; paying more than is owed is rejected with `ExcessiveFunds`.
pub fn quote_repay(cfg: &PoolConfig, now: u64, pos: &BorrowPosition, paid: u128) -> (r: ContractResult<
    (u128, u128, u128),
>)
    ensures
        match r {
            Ok((settled, repaid, released)) => repayment_error(*cfg, now, *pos, paid) is None
                && settled == interest_settled(*cfg, now, *pos, paid) && repaid == principal_repaid(
                *cfg,
                now,
                *pos,
                paid,
            ) && released == collateral_released(*pos, repaid as int) && repaid
                <= pos.principal_to_repay && released <= pos.collateral_submitted,
            Err(e) => repayment_error(*cfg, now, *pos, paid) == Some(e),
        },
{
    if now > cfg.maturationdate {
        return Err(ContractError::CollateralForfeited {});
    }
    if pos.principal_to_repay == 0 && pos.interest_to_repay == 0 {
        return Err(ContractError::PositionNotAvailable {});
    }
    if pos.principal_time != pos.collateral_time {
        return Err(ContractError::InvalidState {});
    }
    if cfg.overcollateralizationfactor < 1 {
        return Err(ContractError::InsufficientOCF {});
    }
    let elapsed = get_time_period(now, pos.principal_time);
    let accrued = match calculate_simple_interest(
        pos.principal_to_repay,
        cfg.debtinterestrate,
        elapsed,
    ) {
        Some(i) => i,
        None => return Err(ContractError::Overflow {}),
    };
    let owed = match pos.interest_to_repay.checked_add(accrued) {
        Some(v) => v,
        None => return Err(ContractError::Overflow {}),
    };
    let settled = if paid <= owed {
        paid
    } else {
        owed
    };
    let repaid = paid - settled;
    if repaid > pos.principal_to_repay {
        return Err(ContractError::ExcessiveFunds {});
    }
    let released = if repaid == pos.principal_to_repay {
        pos.collateral_submitted
    } else {
        match pos.collateral_submitted.checked_mul(repaid) {
            Some(x) => {
                proof {
                    lemma_share_within(
                        pos.collateral_submitted as int,
                        repaid as int,
                        pos.principal_to_repay as int,
                    );
                }
                x / pos.principal_to_repay
            },
            None => return Err(ContractError::Overflow {}),
        }
    };
    Ok((settled, repaid, released))
}

/// Repay debt at time `now` with `paid` units of the asset attached to the
/// call.
///
/// Interest is accrued up to `now` and settled first; the rest repays
/// principal and releases the same share of the posted collateral, which is
/// sent back. Both timestamps become `now`. Repay is not available after
/// maturation: the collateral is then forfeit.
pub fn repay(
    cfg: &PoolConfig,
    now: u64,
    pos: &mut BorrowPosition,
    totals: &mut PoolTotals,
    paid: u128,
) -> (r: ContractResult<Vec<Payout>>)
    ensures
        (*final(pos), *final(totals)) == repay_next(*cfg, now, *old(pos), *old(totals), paid),
        r is Ok ==> final(pos).consistent(),
        now > cfg.maturationdate ==> r == Err::<Vec<Payout>, ContractError>(
            ContractError::CollateralForfeited {},
        ) && *final(pos) == *old(pos) && *final(totals) == *old(totals),
        match r {
            Ok(payouts) => repay_error(*cfg, now, *old(pos), *old(totals), paid) is None
                && payouts@ == payout_if_any(
                Denom::Collateral,
                collateral_released(*old(pos), principal_repaid(*cfg, now, *old(pos), paid)),
            ),
            Err(e) => repay_error(*cfg, now, *old(pos), *old(totals), paid) == Some(e),
        },
{
    let (settled, repaid, released) = match quote_repay(cfg, now, pos, paid) {
        Ok(q) => q,
        Err(e) => return Err(e),
    };
    let asset_available = match totals.asset_available.checked_add(repaid) {
        Some(v) => v,
        None => return Err(ContractError::Overflow {}),
    };
    if totals.collateral_available < released {
        return Err(ContractError::Overflow {});
    }
    let elapsed = get_time_period(now, pos.principal_time);
    let accrued = match calculate_simple_interest(
        pos.principal_to_repay,
        cfg.debtinterestrate,
        elapsed,
    ) {
        Some(i) => i,
        None => return Err(ContractError::Overflow {}),
    };
    *pos = BorrowPosition {
        principal_to_repay: pos.principal_to_repay - repaid,
        principal_time: now,
        interest_to_repay: pos.interest_to_repay + accrued - settled,
        collateral_submitted: pos.collateral_submitted - released,
        collateral_time: now,
    };
    *totals = PoolTotals {
        asset_available,
        collateral_available: totals.collateral_available - released,
    };
    let mut payouts: Vec<Payout> = Vec::new();
    push_payout(&mut payouts, Denom::Collateral, released);
    Ok(payouts)
}

/// A Borrow by an account with no principal and no collateral, followed at
/// the same time by a Repay of everything then owed, leaves the principal,
/// the collateral and both pool aggregates as they were before the Borrow.
pub proof fn lemma_borrow_then_full_repay(
    cfg: PoolConfig,
    now: u64,
    pos: BorrowPosition,
    totals: PoolTotals,
    amount: u128,
    sent: u128,
    paid: u128,
)
    requires
        pos.principal_to_repay == 0,
        pos.collateral_submitted == 0,
        borrow_error(cfg, now, pos, totals, amount, sent) is None,
        paid == amount + interest_owed(cfg, now, borrow_next(cfg, now, pos, totals, amount, sent).0),
    ensures
        ({
            let (pos1, totals1) = borrow_next(cfg, now, pos, totals, amount, sent);
            let (pos2, totals2) = repay_next(cfg, now, pos1, totals1, paid);
            &&& pos2.principal_to_repay == pos.principal_to_repay
            &&& pos2.collateral_submitted == pos.collateral_submitted
            &&& totals2 == totals
        }),
{
    let (pos1, totals1) = borrow_next(cfg, now, pos, totals, amount, sent);
    crate::accrual::lemma_no_interest_without_principal(
        cfg.debtinterestrate as int,
        elapsed_between(now as int, pos.principal_time as int),
    );
    crate::accrual::lemma_no_interest_without_time(amount as int, cfg.debtinterestrate as int);
    assert(elapsed_between(now as int, pos1.principal_time as int) == 0);
    assert(interest_fits(amount as int, cfg.debtinterestrate as int, 0)) by (nonlinear_arith);
    assert(interest_owed(cfg, now, pos1) == pos1.interest_to_repay);
    assert(principal_repaid(cfg, now, pos1, paid) == amount);
    let product = amount * cfg.overcollateralizationfactor;
    assert(product >= 0) by (nonlinear_arith)
        requires
            product == amount * cfg.overcollateralizationfactor,
    ;
    vstd::arithmetic::div_mod::lemma_div_pos_is_pos(product, cfg.strikeprice as int);
    if amount == 0 {
        assert(product == 0) by (nonlinear_arith)
            requires
                product == amount * cfg.overcollateralizationfactor,
                amount == 0,
        ;
        assert(required_collateral(cfg, amount) == 0);
    }
    assert(collateral_released(pos1, amount as int) == pos1.collateral_submitted);
}

} // verus!
