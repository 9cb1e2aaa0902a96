use maturity_pool::{calculate_simple_interest, collateral_needed, get_time_period, SECONDS_IN_YEAR};

#[test]
fn interest_is_zero_without_elapsed_time() {
    for (p, r) in [(0u128, 0u128), (1000, 3), (u128::MAX, 5), (7, u128::MAX)] {
        assert_eq!(calculate_simple_interest(p, r, 0), Some(0));
    }
}

#[test]
fn interest_grows_with_elapsed_time() {
    let mut last = 0u128;
    for e in [0u64, 1, 10_000, 40_000, 31_536_000, 63_072_000, 100_000_000] {
        let i = calculate_simple_interest(1000, 3, e).unwrap();
        assert!(i >= last);
        last = i;
    }
}

#[test]
fn interest_over_one_year() {
    assert_eq!(calculate_simple_interest(1000, 3, 31_536_000), Some(3000));
    assert_eq!(SECONDS_IN_YEAR, 31_536_000);
}

#[test]
fn interest_is_floored() {
    // 1000 * 3 * 40000 / 31536000 = 3.80...
    assert_eq!(calculate_simple_interest(1000, 3, 40_000), Some(3));
}

#[test]
fn interest_overflow_is_reported() {
    assert_eq!(calculate_simple_interest(u128::MAX, 2, 1), None);
    assert_eq!(calculate_simple_interest(u128::MAX / 2, 2, 2), None);
    assert_eq!(calculate_simple_interest(u128::MAX, 1, 1), Some(u128::MAX / 31_536_000));
}

#[test]
fn time_period_saturates() {
    assert_eq!(get_time_period(100, 40), 60);
    assert_eq!(get_time_period(40, 100), 0);
    assert_eq!(get_time_period(5, 5), 0);
}

#[test]
fn collateral_for_half_strike() {
    assert_eq!(collateral_needed(500, 2, 2), Some(500));
}

#[test]
fn collateral_divides_by_strike() {
    assert_eq!(collateral_needed(1000, 4, 3), Some(750));
    assert_eq!(collateral_needed(10, 3, 1), Some(3));
}

#[test]
fn collateral_zero_strike_or_overflow() {
    assert_eq!(collateral_needed(500, 0, 2), None);
    assert_eq!(collateral_needed(u128::MAX, 1, 2), None);
}
