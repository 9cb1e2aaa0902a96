//! Pool-wide operations: adding liquidity, and the admin's end-of-life sweep.
use vstd::prelude::*;

use crate::error::{ContractError, ContractResult};
use crate::state::{payout_if_any, push_payout, Denom, Payout, PoolTotals};

verus! {

/// The first reason for which AddLiquidity is rejected, given the amounts
/// of each token attached to the call (`None` when a token is missing);
/// `None` if it goes through.
pub open spec fn add_liquidity_error(
    totals: PoolTotals,
    asset: Option<u128>,
    collateral: Option<u128>,
) -> Option<ContractError> {
    if asset is None {
        Some(ContractError::InvalidFunds { denom: Denom::Asset })
    } else if collateral is None {
        Some(ContractError::InvalidFunds { denom: Denom::Collateral })
    } else if totals.asset_available + asset.unwrap() > u128::MAX || totals.collateral_available
        + collateral.unwrap() > u128::MAX {
        Some(ContractError::Overflow {})
    } else {
        None
    }
}

/// Donate liquidity: both tokens must be attached, and each aggregate grows
/// by exactly the amount attached in its token. No position is recorded.
pub fn add_liquidity(totals: &mut PoolTotals, asset: Option<u128>, collateral: Option<u128>) -> (r:
    ContractResult<()>)
    ensures
        match r {
            Ok(()) => add_liquidity_error(*old(totals), asset, collateral) is None && *final(totals)
                == (PoolTotals {
                asset_available: (old(totals).asset_available + asset.unwrap()) as u128,
                collateral_available: (old(totals).collateral_available
                    + collateral.unwrap()) as u128,
            }),
            Err(e) => add_liquidity_error(*old(totals), asset, collateral) == Some(e)
                && *final(totals) == *old(totals),
        },
{
    let asset_amount = match asset {
        Some(a) => a,
        None => return Err(ContractError::InvalidFunds { denom: Denom::Asset }),
    };
    let collateral_amount = match collateral {
        Some(c) => c,
        None => return Err(ContractError::InvalidFunds { denom: Denom::Collateral }),
    };
    let asset_available = match totals.asset_available.checked_add(asset_amount) {
        Some(v) => v,
        None => return Err(ContractError::Overflow {}),
    };
    let collateral_available = match totals.collateral_available.checked_add(collateral_amount) {
        Some(v) => v,
        None => return Err(ContractError::Overflow {}),
    };
    *totals = PoolTotals { asset_available, collateral_available };
    Ok(())
}

/// Sweep the pool: only `admin` may call it. Both aggregates are paid out to
/// the admin in full and set to zero. No individual position is inspected.
pub fn liquidate(admin: &String, sender: &String, totals: &mut PoolTotals) -> (r: ContractResult<
    Vec<Payout>,
>)
    ensures
        match r {
            Ok(payouts) => sender@ == admin@ && *final(totals) == (PoolTotals {
                asset_available: 0,
                collateral_available: 0,
            }) && payouts@ == payout_if_any(Denom::Asset, old(totals).asset_available as int)
                + payout_if_any(Denom::Collateral, old(totals).collateral_available as int),
            Err(e) => sender@ != admin@ && e == (ContractError::Unauthorized {}) && *final(totals)
                == *old(totals),
        },
{
    if !sender.eq(admin) {
        return Err(ContractError::Unauthorized {});
    }
    let mut payouts: Vec<Payout> = Vec::new();
    push_payout(&mut payouts, Denom::Asset, totals.asset_available);
    push_payout(&mut payouts, Denom::Collateral, totals.collateral_available);
    *totals = PoolTotals { asset_available: 0, collateral_available: 0 };
    Ok(payouts)
}

} // verus!
