//! The ledger's records: one lending and one borrowing position per account,
//! and the pool-wide aggregates.
use vstd::prelude::*;

verus! {

/// A lender's record. A zero principal is the "no position" state.
#[derive(Clone, Copy, Debug, PartialEq, Eq, Structural)]
pub struct LendingPosition {
    /// Amount lent.
    pub principal: u128,
    /// Time of the last deposit or withdrawal, in seconds.
    pub last_update: u64,
    /// Interest accrued and not yet withdrawn.
    pub interest_earned: u128,
}

/// A borrower's record. The principal and the collateral each carry the time
/// they were last written; every handler writes both at once, so the two
/// times are equal in any consistent state, and a record where they differ
/// is rejected with `InvalidState`.
#[derive(Clone, Copy, Debug, PartialEq, Eq, Structural)]
pub struct BorrowPosition {
    pub principal_to_repay: u128,
    pub principal_time: u64,
    pub interest_to_repay: u128,
    pub collateral_submitted: u128,
    pub collateral_time: u64,
}

/// Liquidity of the pool that is not lent out or posted.
#[derive(Clone, Copy, Debug, PartialEq, Eq, Structural)]
pub struct PoolTotals {
    pub asset_available: u128,
    pub collateral_available: u128,
}

/// The two tokens of a pool.
#[derive(Clone, Copy, Debug, PartialEq, Eq, Structural)]
pub enum Denom {
    Asset,
    Collateral,
}

/// A transfer from the pool to the caller (or, for a sweep, to the admin).
#[derive(Clone, Copy, Debug, PartialEq, Eq, Structural)]
pub struct Payout {
    pub denom: Denom,
    pub amount: u128,
}

impl BorrowPosition {
    /// The two timestamps agree.
    pub open spec fn consistent(self) -> bool {
        self.principal_time == self.collateral_time
    }

    /// The record of an account that never borrowed.
    pub fn empty() -> (r: BorrowPosition)
        ensures
            r == (BorrowPosition {
                principal_to_repay: 0,
                principal_time: 0,
                interest_to_repay: 0,
                collateral_submitted: 0,
                collateral_time: 0,
            }),
            r.consistent(),
    {
        BorrowPosition {
            principal_to_repay: 0,
            principal_time: 0,
            interest_to_repay: 0,
            collateral_submitted: 0,
            collateral_time: 0,
        }
    }
}

impl LendingPosition {
    /// The record of an account that never lent.
    pub fn empty() -> (r: LendingPosition)
        ensures
            r == (LendingPosition { principal: 0, last_update: 0, interest_earned: 0 }),
    {
        LendingPosition { principal: 0, last_update: 0, interest_earned: 0 }
    }
}

impl PoolTotals {
    /// A pool with no liquidity.
    pub fn empty() -> (r: PoolTotals)
        ensures
            r == (PoolTotals { asset_available: 0, collateral_available: 0 }),
    {
        PoolTotals { asset_available: 0, collateral_available: 0 }
    }
}

/// A payout of `amount` in `denom`, or nothing when the amount is zero.
pub open spec fn payout_if_any(denom: Denom, amount: int) -> Seq<Payout> {
    if amount > 0 {
        seq![Payout { denom, amount: amount as u128 }]
    } else {
        Seq::empty()
    }
}

/// Payouts with a zero amount are left out.
pub(crate) fn push_payout(payouts: &mut Vec<Payout>, denom: Denom, amount: u128)
    ensures
        final(payouts)@ == old(payouts)@ + payout_if_any(denom, amount as int),
{
    if amount > 0 {
        payouts.push(Payout { denom, amount });
        assert(payouts@ =~= old(payouts)@ + payout_if_any(denom, amount as int));
    } else {
        assert(old(payouts)@ + payout_if_any(denom, amount as int) =~= old(payouts)@);
    }
}

} // verus!
