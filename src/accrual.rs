//! Simple-interest accrual and collateral sizing.
//!
//! Rates are whole multipliers per year: an amount `p` held at rate `r` for
//! `t` seconds earns `p * r * t / SECONDS_IN_YEAR`, floored. Timestamps are
//! seconds.
use vstd::prelude::*;

verus! {

/// Length of the accrual year, in seconds.
pub const SECONDS_IN_YEAR: u128 = 31_536_000;

/// Simple (non-compounding) interest on `principal` at `rate` over `elapsed`
/// seconds.
pub open spec fn simple_interest(principal: int, rate: int, elapsed: int) -> int {
    principal * rate * elapsed / (SECONDS_IN_YEAR as int)
}

/// The product that `simple_interest` divides fits in a `u128`.
pub open spec fn interest_fits(principal: int, rate: int, elapsed: int) -> bool {
    principal * rate * elapsed <= u128::MAX
}

/// Seconds from `since` to `now`; zero when `since` is later.
pub open spec fn elapsed_between(now: int, since: int) -> int {
    if now >= since {
        now - since
    } else {
        0
    }
}

/// Collateral owed for borrowing `amount`, where `strike` is the number of
/// collateral units per asset unit and `ocf` the overcollateralization factor.
pub open spec fn collateral_for(amount: int, strike: int, ocf: int) -> int {
    amount * ocf / strike
}

/// Interest accrued by `principal` at `rate` over `elapsed` seconds; `None`
/// when the intermediate product `principal * rate * elapsed` exceeds `u128`.
pub fn calculate_simple_interest(principal: u128, rate: u128, elapsed: u64) -> (r: Option<u128>)
    ensures
        interest_fits(principal as int, rate as int, elapsed as int) ==> r == Some(
            simple_interest(principal as int, rate as int, elapsed as int) as u128,
        ),
        !interest_fits(principal as int, rate as int, elapsed as int) ==> r is None,
{
    let e = elapsed as u128;
    match principal.checked_mul(rate) {
        None => {
            if e == 0 {
                assert(principal as int * rate as int * e as int == 0) by (nonlinear_arith)
                    requires
                        e == 0,
                ;
                Some(0)
            } else {
                assert(principal as int * rate as int * e as int >= principal as int * rate as int)
                    by (nonlinear_arith)
                    requires
                        e >= 1,
                        principal as int * rate as int >= 0,
                ;
                None
            }
        },
        Some(pr) => match pr.checked_mul(e) {
            None => None,
            Some(x) => Some(x / SECONDS_IN_YEAR),
        },
    }
}

/// Seconds from `since` to `now`, or zero when `since` is the later one.
pub fn get_time_period(now: u64, since: u64) -> (r: u64)
    ensures
        r == elapsed_between(now as int, since as int),
{
    if now >= since {
        now - since
    } else {
        0
    }
}

/// Collateral needed to borrow `amount` at strike price `strike` with
/// overcollateralization factor `ocf`: `amount * ocf / strike`. `None` when
/// `strike` is zero or the product exceeds `u128`.
pub fn collateral_needed(amount: u128, strike: u128, ocf: u128) -> (r: Option<u128>)
    ensures
        strike > 0 && amount * ocf <= u128::MAX ==> r == Some(
            collateral_for(amount as int, strike as int, ocf as int) as u128,
        ),
        strike == 0 || amount * ocf > u128::MAX ==> r is None,
{
    if strike == 0 {
        return None;
    }
    match amount.checked_mul(ocf) {
        None => None,
        Some(x) => Some(x / strike),
    }
}

/// No time, no interest.
pub proof fn lemma_no_interest_without_time(principal: int, rate: int)
    requires
        principal >= 0,
        rate >= 0,
    ensures
        simple_interest(principal, rate, 0) == 0,
{
    assert(principal * rate * 0 == 0);
}

/// Nothing lent, no interest.
pub proof fn lemma_no_interest_without_principal(rate: int, elapsed: int)
    ensures
        simple_interest(0, rate, elapsed) == 0,
        interest_fits(0, rate, elapsed),
{
    assert(0 * rate * elapsed == 0) by (nonlinear_arith);
}

/// Interest never decreases as more time elapses.
pub proof fn lemma_interest_monotonic_in_time(principal: int, rate: int, e1: int, e2: int)
    requires
        principal >= 0,
        rate >= 0,
        0 <= e1 <= e2,
    ensures
        simple_interest(principal, rate, e1) <= simple_interest(principal, rate, e2),
{
    assert(principal * rate * e1 <= principal * rate * e2) by (nonlinear_arith)
        requires
            principal >= 0,
            rate >= 0,
            0 <= e1 <= e2,
    ;
    vstd::arithmetic::div_mod::lemma_div_is_ordered(
        principal * rate * e1,
        principal * rate * e2,
        SECONDS_IN_YEAR as int,
    );
}

} // verus!
