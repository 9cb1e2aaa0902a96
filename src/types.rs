//! Pool configuration, fixed when the pool is created.
use vstd::prelude::*;

verus! {

/// Parameters of a pool. Rates are whole multipliers per year (see
/// `SECONDS_IN_YEAR`); `strikeprice` is the number of collateral units per
/// asset unit; `lock_in_period` is the percentage of the time left to
/// maturation during which a fresh deposit cannot be withdrawn (zero: no
/// lock-in).
#[derive(Clone, Debug, PartialEq, Eq)]
pub struct PoolConfig {
    pub name: String,
    pub symbol: String,
    pub maturationdate: u64,
    pub debtinterestrate: u128,
    pub strikeprice: u128,
    pub lendinterestrate: u128,
    pub overcollateralizationfactor: u128,
    pub asset: String,
    pub collateral: String,
    pub lock_in_period: u128,
}

/// A token the pool handles, by denomination and number of decimals.
#[derive(Clone, Debug, PartialEq, Eq)]
pub struct CoinConfig {
    pub denom: String,
    pub decimals: u16,
}

} // verus!
