use creditra_credit::quorum::{resolve_quorum_price, sort_prices};
use creditra_credit::types::{ContractError, OracleQuorumConfig};
use creditra_credit::Credit;

const ADMIN: u64 = 1;

fn cfg(k: u32, dev: u32) -> OracleQuorumConfig {
    OracleQuorumConfig { min_quorum_k: k, max_deviation_bps: dev, max_age_seconds: 60 }
}

#[test]
fn sort_prices_ascending_keeps_duplicates() {
    assert_eq!(sort_prices(&vec![5, 1, 4, 1, 3]), vec![1, 1, 3, 4, 5]);
    assert_eq!(sort_prices(&vec![]), Vec::<i128>::new());
}

#[test]
fn quorum_picks_lower_median_of_first_agreeing_window() {
    // Sorted: 90, 100, 101, 102, 200. With K = 3 and 2 %: [90,100,101]
    // spreads 11/90 > 2 %; [100,101,102] spreads 2/100 = 2 % → median 101.
    assert_eq!(resolve_quorum_price(&vec![200, 101, 90, 102, 100], &cfg(3, 200)), Ok(101));
    // K = 2: lower median of [100, 101] is 100.
    assert_eq!(resolve_quorum_price(&vec![200, 101, 90, 102, 100], &cfg(2, 200)), Ok(100));
    // K = 4 with a 2 % bound: no window agrees.
    assert_eq!(resolve_quorum_price(&vec![200, 101, 90, 102, 100], &cfg(4, 200)), Err(ContractError::OraclePriceDeviation));
}

#[test]
fn quorum_spread_bound_is_exact() {
    // 10 000 × (10 100 − 10 000) = 1 000 000 = 100 × 10 000: exactly 1 %.
    assert_eq!(resolve_quorum_price(&vec![10_000, 10_100], &cfg(2, 100)), Ok(10_000));
    assert_eq!(resolve_quorum_price(&vec![10_000, 10_101], &cfg(2, 100)), Err(ContractError::OraclePriceDeviation));
}

#[test]
fn quorum_input_validation() {
    assert_eq!(resolve_quorum_price(&vec![100], &cfg(2, 100)), Err(ContractError::OraclePriceInvalid));
    assert_eq!(resolve_quorum_price(&vec![100; 21], &cfg(2, 100)), Err(ContractError::OraclePriceInvalid));
    assert_eq!(resolve_quorum_price(&vec![100, 0, 100], &cfg(2, 100)), Err(ContractError::OraclePriceInvalid));
    assert_eq!(resolve_quorum_price(&vec![100, 100], &cfg(3, 100)), Err(ContractError::OraclePriceDeviation));
}

#[test]
fn submitted_quorum_price_feeds_settlement() {
    let mut c = Credit::new(1_000);
    c.init(ADMIN).unwrap();
    assert_eq!(c.submit_oracle_prices(ADMIN, &vec![100, 101], 10), Err(ContractError::OraclePriceInvalid));
    c.set_oracle_quorum_config(ADMIN, 2, 500, 60).unwrap();
    assert_eq!(c.submit_oracle_prices(9, &vec![100, 101], 10), Err(ContractError::Unauthorized));
    c.submit_oracle_prices(ADMIN, &vec![103, 100, 500], 10).unwrap();
    assert_eq!(c.get_oracle_last_price(), (Some(100), Some(10)));
    c.set_liquidity_token(ADMIN, 50).unwrap();
    c.deposit_collateral(2, 1_000_000).unwrap();
    c.open_credit_line(ADMIN, 2, 10_000, 300, 70, 0).unwrap();
    c.draw_credit(2, 1_000, 0, 1_000_000).unwrap();
    c.default_credit_line(ADMIN, 2, 0).unwrap();
    c.settle_default_liquidation(ADMIN, 2, 5, 1, 10_000, None, None, 70).unwrap();
    assert_eq!(c.settle_default_liquidation(ADMIN, 2, 5, 2, 10_000, None, None, 71), Err(ContractError::OraclePriceStale));
    assert_eq!(c.get_credit_line(2).unwrap().utilized_amount, 995);
}

#[test]
fn quorum_handles_extreme_values() {
    assert_eq!(resolve_quorum_price(&vec![i128::MAX, i128::MAX - 5], &cfg(2, u32::MAX)), Ok(i128::MAX - 5));
    assert_eq!(resolve_quorum_price(&vec![1, i128::MAX], &cfg(2, u32::MAX)), Err(ContractError::OraclePriceDeviation));
    assert_eq!(resolve_quorum_price(&vec![1, 2], &cfg(2, u32::MAX)), Ok(1));
}
