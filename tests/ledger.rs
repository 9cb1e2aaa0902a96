use maturity_pool::{
    add_liquidity, attached_amount, borrow, deposit, get_repayable_positions,
    get_withdrawable_positions, liquidate, quote_deposit, quote_loan, quote_repay, repay,
    withdraw, withdraw_interest, AttachedCoin, BorrowPosition, CoinConfig, ContractError, Denom,
    ExternalOracleQueryMsg, ExternalPriceResponse, LendingPosition, Payout, PoolConfig,
    PoolTotals,
};

const START: u64 = 1_571_797_419;
const MATURATION: u64 = 1_574_797_419;

fn config() -> PoolConfig {
    PoolConfig {
        name: "Test Pool".to_string(),
        symbol: "TP".to_string(),
        maturationdate: MATURATION,
        debtinterestrate: 5,
        strikeprice: 2,
        lendinterestrate: 3,
        overcollateralizationfactor: 2,
        asset: "asset_token".to_string(),
        collateral: "collateral_token".to_string(),
        lock_in_period: 1,
    }
}

/// A pool that matures a year after `START`.
fn long_config() -> PoolConfig {
    PoolConfig { maturationdate: START + 31_536_000, ..config() }
}

fn pool_with_liquidity(asset: u128, collateral: u128) -> PoolTotals {
    let mut totals = PoolTotals::empty();
    add_liquidity(&mut totals, Some(asset), Some(collateral)).unwrap();
    totals
}

#[test]
fn test_add_liquidity() {
    let mut totals = PoolTotals::empty();
    let asset_amount = 1000u128;
    let collateral_amount = 2000u128;
    let result = add_liquidity(&mut totals, Some(asset_amount), Some(collateral_amount));
    assert!(result.is_ok(), "Execution should succeed");
    assert_eq!(totals.asset_available, asset_amount);
    assert_eq!(totals.collateral_available, collateral_amount);
}

#[test]
fn add_liquidity_accumulates() {
    let mut totals = pool_with_liquidity(1000, 2000);
    add_liquidity(&mut totals, Some(10), Some(0)).unwrap();
    assert_eq!(totals, PoolTotals { asset_available: 1010, collateral_available: 2000 });
}

#[test]
fn add_liquidity_missing_denomination() {
    let mut totals = pool_with_liquidity(1000, 2000);
    let before = totals;
    assert_eq!(
        add_liquidity(&mut totals, None, Some(5)),
        Err(ContractError::InvalidFunds { denom: Denom::Asset })
    );
    assert_eq!(
        add_liquidity(&mut totals, Some(5), None),
        Err(ContractError::InvalidFunds { denom: Denom::Collateral })
    );
    assert_eq!(totals, before);
}

#[test]
fn add_liquidity_overflow() {
    let mut totals = pool_with_liquidity(u128::MAX, 1);
    assert_eq!(add_liquidity(&mut totals, Some(1), Some(1)), Err(ContractError::Overflow {}));
    assert_eq!(totals, PoolTotals { asset_available: u128::MAX, collateral_available: 1 });
}

#[test]
fn test_deposit() {
    let cfg = config();
    let mut totals = PoolTotals::empty();
    let mut pos = LendingPosition::empty();
    let asset_amount = 1000u128;
    deposit(&cfg, START, &mut pos, &mut totals, asset_amount).unwrap();
    assert_eq!(totals.asset_available, asset_amount);
    assert_eq!(pos.principal, asset_amount);
}

#[test]
fn fresh_deposit_records_principal_only() {
    let cfg = config();
    let mut totals = PoolTotals::empty();
    let mut pos = LendingPosition::empty();
    deposit(&cfg, START, &mut pos, &mut totals, 1000).unwrap();
    assert_eq!(pos, LendingPosition { principal: 1000, last_update: START, interest_earned: 0 });
}

#[test]
fn second_deposit_accrues_interest() {
    let cfg = long_config();
    let mut totals = PoolTotals::empty();
    let mut pos = LendingPosition::empty();
    deposit(&cfg, START, &mut pos, &mut totals, 1000).unwrap();
    deposit(&cfg, START + 3_153_600, &mut pos, &mut totals, 500).unwrap();
    // 1000 * 3 * 3153600 / 31536000 = 300
    assert_eq!(pos, LendingPosition { principal: 1500, last_update: START + 3_153_600, interest_earned: 300 });
    assert_eq!(totals.asset_available, 1500);
}

#[test]
fn deposit_after_maturation_rejected() {
    let cfg = config();
    let mut totals = pool_with_liquidity(10, 10);
    let mut pos = LendingPosition { principal: 7, last_update: START, interest_earned: 1 };
    let before = (pos, totals);
    assert_eq!(
        deposit(&cfg, MATURATION + 1, &mut pos, &mut totals, 1000),
        Err(ContractError::PoolMatured {})
    );
    assert_eq!((pos, totals), before);
    assert!(deposit(&cfg, MATURATION, &mut pos, &mut totals, 1000).is_ok());
}

#[test]
fn test_withdraw_fail() {
    let cfg = config();
    let mut totals = PoolTotals::empty();
    let mut pos = LendingPosition::empty();
    let asset_amount = 1000u128;
    let withdraw_amount = 500u128;
    deposit(&cfg, START, &mut pos, &mut totals, asset_amount).unwrap();
    // the lock-in lasts 1% of the 3_000_000 s left to maturation
    let r = withdraw(&cfg, START, &mut pos, &mut totals, withdraw_amount);
    assert_eq!(
        r,
        Err(ContractError::LockinTimePeriodActive {
            last_time: START,
            now: START,
            maturation_date: MATURATION
        })
    );
    assert_eq!(totals.asset_available, asset_amount);
    assert_eq!(pos.principal, asset_amount);
    let r = withdraw(&cfg, START + 29_999, &mut pos, &mut totals, withdraw_amount);
    assert!(matches!(r, Err(ContractError::LockinTimePeriodActive { .. })));
    assert!(withdraw(&cfg, START + 30_000, &mut pos, &mut totals, withdraw_amount).is_ok());
}

#[test]
fn test_withdraw() {
    let cfg = config();
    let mut totals = PoolTotals::empty();
    let mut pos = LendingPosition::empty();
    let asset_amount = 1000u128;
    deposit(&cfg, START, &mut pos, &mut totals, asset_amount).unwrap();
    let withdraw_amount = 500u128;
    let payouts = withdraw(&cfg, START + 40_000, &mut pos, &mut totals, withdraw_amount).unwrap();
    assert_eq!(totals.asset_available, asset_amount - withdraw_amount);
    assert_eq!(pos.principal, asset_amount - withdraw_amount);
    assert_eq!(payouts, vec![Payout { denom: Denom::Asset, amount: withdraw_amount }]);
    assert_eq!(pos.interest_earned, 3);
    assert_eq!(pos.last_update, START + 40_000);
}

#[test]
fn withdraw_insufficient_funds_and_no_position() {
    let cfg = PoolConfig { lock_in_period: 0, ..config() };
    let mut totals = pool_with_liquidity(5000, 0);
    let mut pos = LendingPosition { principal: 1000, last_update: START, interest_earned: 4 };
    let before = (pos, totals);
    assert_eq!(
        withdraw(&cfg, START + 10, &mut pos, &mut totals, 1001),
        Err(ContractError::InsufficientFunds {})
    );
    assert_eq!((pos, totals), before);
    let mut empty = LendingPosition::empty();
    assert_eq!(
        withdraw(&cfg, START + 10, &mut empty, &mut totals, 1),
        Err(ContractError::PositionNotAvailable {})
    );
    assert_eq!(empty, LendingPosition::empty());
    assert_eq!(totals, before.1);
}

#[test]
fn withdraw_stops_accrual_at_maturation() {
    let cfg = PoolConfig { lock_in_period: 0, ..config() };
    let mut totals = pool_with_liquidity(5000, 0);
    let mut pos = LendingPosition { principal: 1000, last_update: START, interest_earned: 0 };
    withdraw(&cfg, MATURATION + 1_000_000, &mut pos, &mut totals, 1000).unwrap();
    // 1000 * 3 * 3000000 / 31536000 = 285.3...
    assert_eq!(pos.interest_earned, 285);
    assert_eq!(pos.principal, 0);
    assert_eq!(totals.asset_available, 4000);
}

#[test]
fn withdraw_interest_resets_balance() {
    let mut pos = LendingPosition { principal: 10, last_update: START, interest_earned: 42 };
    let payouts = withdraw_interest(&mut pos);
    assert_eq!(payouts, vec![Payout { denom: Denom::Asset, amount: 42 }]);
    assert_eq!(pos, LendingPosition { principal: 10, last_update: START, interest_earned: 0 });
    assert_eq!(withdraw_interest(&mut pos), vec![]);
}

#[test]
fn test_borrow() {
    let cfg = config();
    let asset_amount = 1000u128;
    let collateral_amount = 2000u128;
    let borrow_amount = 500u128;
    let mut totals = pool_with_liquidity(asset_amount, collateral_amount);
    let mut pos = BorrowPosition::empty();
    let payouts = borrow(&cfg, START, &mut pos, &mut totals, borrow_amount, collateral_amount).unwrap();
    assert_eq!(totals.asset_available, asset_amount - borrow_amount);
    assert_eq!(pos.principal_to_repay, borrow_amount);
    assert_eq!(pos.collateral_submitted, 500);
    assert_eq!(totals.collateral_available, 2500);
    assert_eq!(
        payouts,
        vec![
            Payout { denom: Denom::Asset, amount: 500 },
            Payout { denom: Denom::Collateral, amount: 1500 }
        ]
    );
}

#[test]
fn borrow_accrues_interest_on_existing_debt() {
    let cfg = long_config();
    let mut totals = pool_with_liquidity(10_000, 0);
    let mut pos = BorrowPosition::empty();
    borrow(&cfg, START, &mut pos, &mut totals, 1000, 1000).unwrap();
    let payouts = borrow(&cfg, START + 3_153_600, &mut pos, &mut totals, 100, 100).unwrap();
    // 1000 * 5 * 3153600 / 31536000 = 500
    assert_eq!(
        pos,
        BorrowPosition {
            principal_to_repay: 1100,
            principal_time: START + 3_153_600,
            interest_to_repay: 500,
            collateral_submitted: 1100,
            collateral_time: START + 3_153_600,
        }
    );
    assert_eq!(payouts, vec![Payout { denom: Denom::Asset, amount: 100 }]);
    assert_eq!(totals, PoolTotals { asset_available: 8900, collateral_available: 1100 });
}

#[test]
fn borrow_rejections_change_nothing() {
    let cfg = config();
    let mut totals = pool_with_liquidity(1000, 0);
    let mut pos = BorrowPosition::empty();
    let before = (pos, totals);
    assert_eq!(
        borrow(&cfg, MATURATION + 1, &mut pos, &mut totals, 10, 100),
        Err(ContractError::PoolMatured {})
    );
    assert_eq!(
        borrow(&cfg, START, &mut pos, &mut totals, 1001, 5000),
        Err(ContractError::InsufficientFunds {})
    );
    let low_ocf = PoolConfig { overcollateralizationfactor: 0, ..config() };
    assert_eq!(
        borrow(&low_ocf, START, &mut pos, &mut totals, 10, 100),
        Err(ContractError::InsufficientOCF {})
    );
    let zero_strike = PoolConfig { strikeprice: 0, ..config() };
    assert_eq!(
        borrow(&zero_strike, START, &mut pos, &mut totals, 10, 100),
        Err(ContractError::DivideByZero {})
    );
    assert_eq!(
        borrow(&cfg, START, &mut pos, &mut totals, 500, 499),
        Err(ContractError::InsufficientCollateral {})
    );
    assert_eq!((pos, totals), before);
    let mut skewed = BorrowPosition { collateral_time: 1, ..BorrowPosition::empty() };
    assert_eq!(
        borrow(&cfg, START, &mut skewed, &mut totals, 10, 100),
        Err(ContractError::InvalidState {})
    );
    assert_eq!(skewed.collateral_time, 1);
    assert_eq!(totals, before.1);
}

#[test]
fn borrow_collateral_overflow() {
    let cfg = config();
    let mut totals = pool_with_liquidity(1000, u128::MAX);
    let mut pos = BorrowPosition::empty();
    assert_eq!(
        borrow(&cfg, START, &mut pos, &mut totals, 10, 10),
        Err(ContractError::Overflow {})
    );
    assert_eq!(pos, BorrowPosition::empty());
    assert_eq!(totals.asset_available, 1000);
}

#[test]
fn test_repay() {
    let cfg = config();
    let mut totals = pool_with_liquidity(1000, 2000);
    let mut pos = BorrowPosition::empty();
    let borrow_amount = 500u128;
    borrow(&cfg, START, &mut pos, &mut totals, borrow_amount, 2000).unwrap();
    assert_eq!(totals.asset_available, 1000 - 500);
    let result = repay(&cfg, START, &mut pos, &mut totals, borrow_amount);
    assert!(result.is_ok(), "Execution should succeed");
    assert_eq!(pos.principal_to_repay, 0);
    assert_eq!(pos.collateral_submitted, 0);
    assert_eq!(totals, PoolTotals { asset_available: 1000, collateral_available: 2000 });
    assert_eq!(result.unwrap(), vec![Payout { denom: Denom::Collateral, amount: 500 }]);
}

#[test]
fn borrow_then_full_repay_restores() {
    let cfg = config();
    let mut totals = pool_with_liquidity(7_000, 300);
    let mut pos = BorrowPosition { interest_to_repay: 9, ..BorrowPosition::empty() };
    let before_totals = totals;
    let t = START + 77;
    borrow(&cfg, t, &mut pos, &mut totals, 1234, 5000).unwrap();
    repay(&cfg, t, &mut pos, &mut totals, 1234 + 9).unwrap();
    assert_eq!(pos.principal_to_repay, 0);
    assert_eq!(pos.collateral_submitted, 0);
    assert_eq!(pos.interest_to_repay, 0);
    assert_eq!(totals, before_totals);
}

#[test]
fn partial_repay_releases_pro_rata() {
    let cfg = long_config();
    let mut totals = pool_with_liquidity(10_000, 0);
    let mut pos = BorrowPosition::empty();
    borrow(&cfg, START, &mut pos, &mut totals, 1000, 1000).unwrap();
    // a tenth of a year later: 1000 * 5 * 3153600 / 31536000 = 500 interest
    let t = START + 3_153_600;
    let payouts = repay(&cfg, t, &mut pos, &mut totals, 800).unwrap();
    // 500 settles interest, 300 repays principal, 1000 * 300 / 1000 collateral back
    assert_eq!(payouts, vec![Payout { denom: Denom::Collateral, amount: 300 }]);
    assert_eq!(
        pos,
        BorrowPosition {
            principal_to_repay: 700,
            principal_time: t,
            interest_to_repay: 0,
            collateral_submitted: 700,
            collateral_time: t,
        }
    );
    assert_eq!(totals, PoolTotals { asset_available: 9300, collateral_available: 700 });
}

#[test]
fn interest_only_payment_releases_nothing() {
    let cfg = long_config();
    let mut totals = pool_with_liquidity(10_000, 0);
    let mut pos = BorrowPosition::empty();
    borrow(&cfg, START, &mut pos, &mut totals, 1000, 1000).unwrap();
    let t = START + 3_153_600;
    let payouts = repay(&cfg, t, &mut pos, &mut totals, 200).unwrap();
    assert_eq!(payouts, vec![]);
    assert_eq!(pos.interest_to_repay, 300);
    assert_eq!(pos.principal_to_repay, 1000);
    assert_eq!(pos.collateral_submitted, 1000);
}

#[test]
fn repay_rejections_change_nothing() {
    let cfg = config();
    let mut totals = pool_with_liquidity(1000, 0);
    let mut pos = BorrowPosition::empty();
    borrow(&cfg, START, &mut pos, &mut totals, 100, 100).unwrap();
    let before = (pos, totals);
    assert_eq!(
        repay(&cfg, MATURATION + 1, &mut pos, &mut totals, 100),
        Err(ContractError::CollateralForfeited {})
    );
    assert_eq!(
        repay(&cfg, START, &mut pos, &mut totals, 101),
        Err(ContractError::ExcessiveFunds {})
    );
    let low_ocf = PoolConfig { overcollateralizationfactor: 0, ..config() };
    assert_eq!(
        repay(&low_ocf, START, &mut pos, &mut totals, 100),
        Err(ContractError::InsufficientOCF {})
    );
    assert_eq!((pos, totals), before);
    let mut empty = BorrowPosition::empty();
    assert_eq!(
        repay(&cfg, START, &mut empty, &mut totals, 1),
        Err(ContractError::PositionNotAvailable {})
    );
    let mut skewed = BorrowPosition { collateral_time: START + 1, ..pos };
    assert_eq!(
        repay(&cfg, START, &mut skewed, &mut totals, 1),
        Err(ContractError::InvalidState {})
    );
    assert_eq!(totals, before.1);
}

#[test]
fn liquidate_sweeps_for_admin_only() {
    let admin = "owner".to_string();
    let mut totals = pool_with_liquidity(1000, 2000);
    assert_eq!(
        liquidate(&admin, &"user".to_string(), &mut totals),
        Err(ContractError::Unauthorized {})
    );
    assert_eq!(totals, PoolTotals { asset_available: 1000, collateral_available: 2000 });
    let payouts = liquidate(&admin, &"owner".to_string(), &mut totals).unwrap();
    assert_eq!(
        payouts,
        vec![
            Payout { denom: Denom::Asset, amount: 1000 },
            Payout { denom: Denom::Collateral, amount: 2000 }
        ]
    );
    assert_eq!(totals, PoolTotals::empty());
}

#[test]
fn deposit_quote_projection() {
    let cfg = long_config();
    let mut totals = PoolTotals::empty();
    let mut pos = LendingPosition::empty();
    deposit(&cfg, START, &mut pos, &mut totals, 1000).unwrap();
    assert_eq!(quote_deposit(&cfg, &pos, 500, START), Ok(((1000, 0), (1500, 0))));
    let delta = 3_153_600u64;
    let expected = (1000u128 * 3 * delta as u128 / 31_536_000, 1500u128 * 3 * delta as u128 / 31_536_000);
    assert_eq!(expected, (300, 450));
    assert_eq!(
        quote_deposit(&cfg, &pos, 500, START + delta),
        Ok(((1000, expected.0), (1500, expected.1)))
    );
    assert_eq!(get_withdrawable_positions(&cfg, &pos, START + delta), Ok((1000, 300)));
    // projections stop at maturation
    assert_eq!(
        get_withdrawable_positions(&cfg, &pos, cfg.maturationdate + 99),
        get_withdrawable_positions(&cfg, &pos, cfg.maturationdate)
    );
}

#[test]
fn deposit_quote_overflow() {
    let cfg = config();
    let pos = LendingPosition { principal: u128::MAX, last_update: START, interest_earned: 0 };
    assert_eq!(quote_deposit(&cfg, &pos, 1, START), Err(ContractError::Overflow {}));
}

#[test]
fn loan_quote_projection() {
    let cfg = long_config();
    let mut totals = pool_with_liquidity(10_000, 0);
    let mut pos = BorrowPosition::empty();
    borrow(&cfg, START, &mut pos, &mut totals, 1000, 1000).unwrap();
    let at = START + 3_153_600;
    assert_eq!(quote_loan(&cfg, &pos, 500, at), Ok(((1000, 500, 1000), (1500, 750, 1500))));
    assert_eq!(get_repayable_positions(&cfg, &pos, at), Ok((1000, 500, 1000)));
    let zero_strike = PoolConfig { strikeprice: 0, ..long_config() };
    assert_eq!(quote_loan(&zero_strike, &pos, 500, at), Err(ContractError::DivideByZero {}));
    let skewed = BorrowPosition { collateral_time: 0, ..pos };
    assert_eq!(quote_loan(&cfg, &skewed, 500, at), Err(ContractError::InvalidState {}));
    assert_eq!(get_repayable_positions(&cfg, &skewed, at), Err(ContractError::InvalidState {}));
}

#[test]
fn repay_quote_matches_repay() {
    let cfg = long_config();
    let mut totals = pool_with_liquidity(10_000, 0);
    let mut pos = BorrowPosition::empty();
    borrow(&cfg, START, &mut pos, &mut totals, 1000, 1000).unwrap();
    let t = START + 3_153_600;
    assert_eq!(quote_repay(&cfg, t, &pos, 800), Ok((500, 300, 300)));
    assert_eq!(quote_repay(&cfg, t, &pos, 1500), Ok((500, 1000, 1000)));
    assert_eq!(quote_repay(&cfg, t, &pos, 1501), Err(ContractError::ExcessiveFunds {}));
    let quoted = pos;
    assert_eq!(pos, quoted);
}

#[test]
fn attached_amount_finds_first_match() {
    let funds = vec![
        AttachedCoin { denom: "collateral_token".to_string(), amount: 2000 },
        AttachedCoin { denom: "asset_token".to_string(), amount: 1000 },
        AttachedCoin { denom: "asset_token".to_string(), amount: 7 },
    ];
    assert_eq!(attached_amount(&funds, &"asset_token".to_string()), Some(1000));
    assert_eq!(attached_amount(&funds, &"collateral_token".to_string()), Some(2000));
    assert_eq!(attached_amount(&funds, &"other".to_string()), None);
    assert_eq!(attached_amount(&vec![], &"asset_token".to_string()), None);
}

#[test]
fn config_types_carry_values() {
    let coin = CoinConfig { denom: "asset_token".to_string(), decimals: 6 };
    assert_eq!(coin.clone(), coin);
    let q = ExternalOracleQueryMsg { symbol: "ATOM".to_string() };
    assert_eq!(q.symbol, "ATOM");
    let p = ExternalPriceResponse { price: 100, precision: 1 };
    assert_eq!(p.price, 100);
}
