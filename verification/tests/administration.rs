use creditra_credit::contract::TokenTransfer;
use creditra_credit::penalties::{AprFeeConfig, FlatFeeConfig, LateFeeConfig};
use creditra_credit::types::{ContractError, CreditStatus, GraceWaiverMode};
use creditra_credit::Credit;

const CONTRACT: u64 = 1_000;
const ADMIN: u64 = 1;
const BORROWER: u64 = 2;
const TOKEN: u64 = 50;
const TREASURY: u64 = 60;
const BOUNTY: u64 = 61;
const OTHER: u64 = 9;

fn init() -> Credit {
    let mut c = Credit::new(CONTRACT);
    c.init(ADMIN).unwrap();
    c
}

/// One year of a 100 % APR line: the fee of 10 % applies to the 1 000 of
/// interest, not to the whole repayment of 2 000 (fee 100: treasury 70,
/// bounty 30; 1 900 to the reserve).
fn with_fees() -> Credit {
    let mut c = init();
    c.set_liquidity_token(ADMIN, TOKEN).unwrap();
    c.deposit_collateral(BORROWER, 1_000_000).unwrap();
    c.open_credit_line(ADMIN, BORROWER, 10_000, 10_000, 70, 0).unwrap();
    c.draw_credit(BORROWER, 1_000, 0, 1_000_000).unwrap();
    c.set_protocol_fee_bps(ADMIN, 1_000).unwrap();
    c.set_treasury_fee_share_bps(ADMIN, 7_000).unwrap();
    let r = c.repay_credit(BORROWER, 2_000, 31_557_600).unwrap();
    assert_eq!(r.effective_repay, 2_000);
    assert_eq!(r.interest_repaid, 1_000);
    assert_eq!(r.fee, 100);
    assert_eq!(r.reserve_amount, 1_900);
    c
}

/// A Defaulted line of 1 000 drawn at time 0.
fn defaulted_line() -> Credit {
    let mut c = init();
    c.set_liquidity_token(ADMIN, TOKEN).unwrap();
    c.deposit_collateral(BORROWER, 1_000_000).unwrap();
    c.open_credit_line(ADMIN, BORROWER, 10_000, 300, 70, 0).unwrap();
    c.draw_credit(BORROWER, 1_000, 0, 1_000_000).unwrap();
    c.default_credit_line(ADMIN, BORROWER, 0).unwrap();
    c
}

#[test]
fn principal_only_repayment_pays_no_fee() {
    let mut c = init();
    c.set_liquidity_token(ADMIN, TOKEN).unwrap();
    c.deposit_collateral(BORROWER, 1_000_000).unwrap();
    c.open_credit_line(ADMIN, BORROWER, 10_000, 300, 70, 0).unwrap();
    c.draw_credit(BORROWER, 1_000, 0, 1_000_000).unwrap();
    c.set_protocol_fee_bps(ADMIN, 1_000).unwrap();
    let r = c.repay_credit(BORROWER, 1_000, 0).unwrap();
    assert_eq!((r.interest_repaid, r.fee, r.reserve_amount), (0, 0, 1_000));
    assert_eq!(c.get_treasury_balance(), 0);
}

// ── admin rotation ───────────────────────────────────────────────────────────

#[test]
fn admin_rotation_waits_for_delay() {
    let mut c = init();
    assert_eq!(c.propose_admin(OTHER, 7, 100, 1_000), Err(ContractError::Unauthorized));
    c.propose_admin(ADMIN, 7, 100, 1_000).unwrap();
    assert_eq!(c.accept_admin(8, 2_000), Err(ContractError::Unauthorized));
    assert_eq!(c.accept_admin(7, 1_099), Err(ContractError::AdminAcceptTooEarly));
    c.accept_admin(7, 1_100).unwrap();
    assert_eq!(c.get_admin(), Some(7));
    assert_eq!(c.set_protocol_paused(ADMIN, true), Err(ContractError::Unauthorized));
    assert_eq!(c.accept_admin(7, 5_000), Err(ContractError::Unauthorized));
}

#[test]
fn admin_rotation_delay_saturates() {
    let mut c = init();
    c.propose_admin(ADMIN, 7, u64::MAX, 10).unwrap();
    assert_eq!(c.accept_admin(7, u64::MAX - 1), Err(ContractError::AdminAcceptTooEarly));
    c.accept_admin(7, u64::MAX).unwrap();
}

// ── treasury and bounty ──────────────────────────────────────────────────────

#[test]
fn fees_accumulate_by_share() {
    let c = with_fees();
    assert_eq!(c.get_treasury_balance(), 70);
    assert_eq!(c.get_bounty_balance(), 30);
    assert_eq!(c.get_protocol_summary().treasury_balance, 70);
}

#[test]
fn treasury_withdrawal_is_time_locked() {
    let mut c = with_fees();
    assert_eq!(c.propose_treasury_withdrawal(ADMIN, 100), Err(ContractError::TreasuryNotSet));
    c.set_treasury(ADMIN, TREASURY).unwrap();
    assert_eq!(c.get_treasury(), Some(TREASURY));
    assert_eq!(c.execute_treasury_withdrawal(ADMIN, 100), Err(ContractError::NoPendingTreasuryWithdrawal));
    c.propose_treasury_withdrawal(ADMIN, 100).unwrap();
    let p = c.get_pending_treasury_withdrawal().unwrap();
    assert_eq!((p.recipient, p.amount, p.proposer, p.proposed_at, p.execute_after), (TREASURY, 70, ADMIN, 100, 86_500));
    assert_eq!(c.propose_treasury_withdrawal(ADMIN, 200), Err(ContractError::TreasuryProposalExists));
    assert_eq!(c.execute_treasury_withdrawal(ADMIN, 86_499), Err(ContractError::TreasuryTimelockActive));
    let t = c.execute_treasury_withdrawal(ADMIN, 86_500).unwrap();
    assert_eq!(t, Some(TokenTransfer { token: TOKEN, from: CONTRACT, to: TREASURY, amount: 70 }));
    assert_eq!(c.get_treasury_balance(), 0);
    assert_eq!(c.get_pending_treasury_withdrawal(), None);
}

#[test]
fn empty_treasury_withdrawal_moves_nothing() {
    let mut c = init();
    c.set_treasury(ADMIN, TREASURY).unwrap();
    c.propose_treasury_withdrawal(ADMIN, 0).unwrap();
    assert_eq!(c.execute_treasury_withdrawal(ADMIN, 86_400), Ok(None));
    assert_eq!(c.get_pending_treasury_withdrawal(), None);
}

#[test]
fn bounty_withdrawal() {
    let mut c = with_fees();
    assert_eq!(c.withdraw_bounty(ADMIN), Err(ContractError::BountyNotSet));
    c.set_bounty(ADMIN, BOUNTY).unwrap();
    assert_eq!(c.get_bounty(), Some(BOUNTY));
    assert_eq!(c.withdraw_bounty(OTHER), Err(ContractError::Unauthorized));
    let t = c.withdraw_bounty(ADMIN).unwrap();
    assert_eq!(t, Some(TokenTransfer { token: TOKEN, from: CONTRACT, to: BOUNTY, amount: 30 }));
    assert_eq!(c.get_bounty_balance(), 0);
    assert_eq!(c.withdraw_bounty(ADMIN), Ok(None));
}

#[test]
fn treasury_share_above_full_is_overflow() {
    let mut c = init();
    assert_eq!(c.set_treasury_fee_share_bps(ADMIN, 10_001), Err(ContractError::Overflow));
    c.set_treasury_fee_share_bps(ADMIN, 10_000).unwrap();
    assert_eq!(c.get_treasury_fee_share_bps(), Some(10_000));
}

// ── protocol fee and pause ───────────────────────────────────────────────────

#[test]
fn protocol_fee_respects_bounds() {
    let mut c = init();
    assert_eq!(c.get_protocol_fee_bounds(), (0, 1_000));
    assert_eq!(c.set_protocol_fee_bps(ADMIN, 1_001), Err(ContractError::InvalidAmount));
    assert_eq!(c.set_protocol_fee_bounds(ADMIN, 10, 1_001), Err(ContractError::InvalidAmount));
    assert_eq!(c.set_protocol_fee_bounds(ADMIN, 20, 10), Err(ContractError::InvalidAmount));
    c.set_protocol_fee_bounds(ADMIN, 10, 500).unwrap();
    assert_eq!(c.set_protocol_fee_bps(ADMIN, 5), Err(ContractError::InvalidAmount));
    c.set_protocol_fee_bps(ADMIN, 250).unwrap();
    assert_eq!(c.get_protocol_fee_bps(), Some(250));
}

#[test]
fn pause_blocks_draws_but_not_repayments() {
    let mut c = init();
    c.set_liquidity_token(ADMIN, TOKEN).unwrap();
    c.deposit_collateral(BORROWER, 1_000_000).unwrap();
    c.open_credit_line(ADMIN, BORROWER, 10_000, 300, 70, 0).unwrap();
    c.draw_credit(BORROWER, 500, 0, 1_000_000).unwrap();
    c.set_protocol_paused(ADMIN, true).unwrap();
    assert!(c.is_protocol_paused());
    assert_eq!(c.draw_credit(BORROWER, 100, 0, 1_000_000), Err(ContractError::Paused));
    let r = c.repay_credit(BORROWER, 200, 0).unwrap();
    assert_eq!(r.new_utilized_amount, 300);
    c.set_protocol_paused(ADMIN, false).unwrap();
    c.draw_credit(BORROWER, 100, 0, 1_000_000).unwrap();
}

#[test]
fn upgrade_bumps_schema_version() {
    let mut c = init();
    assert_eq!(c.get_schema_version(), Some(1));
    assert_eq!(c.upgrade(OTHER), Err(ContractError::Unauthorized));
    c.upgrade(ADMIN).unwrap();
    assert_eq!(c.get_schema_version(), Some(2));
    c.set_protocol_paused(ADMIN, true).unwrap();
    assert_eq!(c.upgrade(ADMIN), Err(ContractError::Paused));
}

// ── blocklist ────────────────────────────────────────────────────────────────

#[test]
fn blocklist_roundtrip() {
    let mut c = init();
    assert!(!c.is_borrower_blocked(BORROWER));
    c.block_borrower(ADMIN, BORROWER).unwrap();
    c.block_borrower(ADMIN, BORROWER).unwrap();
    assert!(c.is_borrower_blocked(BORROWER));
    c.unblock_borrower(ADMIN, BORROWER).unwrap();
    assert!(!c.is_borrower_blocked(BORROWER));
    assert_eq!(c.block_borrower(OTHER, BORROWER), Err(ContractError::Unauthorized));
}

#[test]
fn blocked_borrower_cannot_draw() {
    let mut c = init();
    c.set_liquidity_token(ADMIN, TOKEN).unwrap();
    c.deposit_collateral(BORROWER, 1_000_000).unwrap();
    c.open_credit_line(ADMIN, BORROWER, 10_000, 300, 70, 0).unwrap();
    c.block_borrower(ADMIN, BORROWER).unwrap();
    assert_eq!(c.draw_credit(BORROWER, 100, 0, 1_000_000), Err(ContractError::BorrowerBlocked));
    c.unblock_borrower(ADMIN, BORROWER).unwrap();
    c.draw_credit(BORROWER, 100, 0, 1_000_000).unwrap();
}

#[test]
fn liquidity_settings_refused_while_paused() {
    let mut c = init();
    c.set_liquidity_token(ADMIN, TOKEN).unwrap();
    c.set_protocol_paused(ADMIN, true).unwrap();
    assert_eq!(c.set_liquidity_token(ADMIN, 51), Err(ContractError::Paused));
    assert_eq!(c.set_liquidity_source(ADMIN, 52), Err(ContractError::Paused));
    assert_eq!((c.get_liquidity_token(), c.get_liquidity_source()), (Some(TOKEN), Some(CONTRACT)));
    c.set_protocol_paused(ADMIN, false).unwrap();
    c.deposit_collateral(BORROWER, 1_000_000).unwrap();
    c.open_credit_line(ADMIN, BORROWER, 10_000, 300, 70, 0).unwrap();
    let r = c.draw_credit(BORROWER, 100, 0, 1_000_000).unwrap();
    assert_eq!((r.token, r.from), (TOKEN, CONTRACT));
}

#[test]
fn bulk_block_limits_batch_size() {
    let mut c = init();
    let many: Vec<u64> = (100..151).collect();
    assert_eq!(c.bulk_block_borrowers(ADMIN, &many), Err(ContractError::InvalidAmount));
    assert!(!c.is_borrower_blocked(100));
    let fifty: Vec<u64> = (100..150).collect();
    c.bulk_block_borrowers(ADMIN, &fifty).unwrap();
    assert!(c.is_borrower_blocked(100) && c.is_borrower_blocked(149));
    assert!(!c.is_borrower_blocked(150));
}

// ── credit line freezes ──────────────────────────────────────────────────────

#[test]
fn frozen_line_cannot_draw() {
    let mut c = init();
    c.set_liquidity_token(ADMIN, TOKEN).unwrap();
    c.deposit_collateral(BORROWER, 1_000_000).unwrap();
    c.open_credit_line(ADMIN, BORROWER, 10_000, 300, 70, 0).unwrap();
    c.freeze_credit_line(ADMIN, BORROWER, 0).unwrap();
    assert!(c.is_credit_line_frozen(BORROWER));
    assert_eq!(c.draw_credit(BORROWER, 100, 0, 1_000_000), Err(ContractError::CreditLineFrozen));
    c.unfreeze_credit_line(ADMIN, BORROWER, 0).unwrap();
    assert!(!c.is_credit_line_frozen(BORROWER));
    c.draw_credit(BORROWER, 100, 0, 1_000_000).unwrap();
}

#[test]
fn borrow_admin_cooldown_spaces_admin_actions() {
    let mut c = init();
    c.open_credit_line(ADMIN, BORROWER, 10_000, 300, 70, 0).unwrap();
    c.set_borrow_admin_cooldown(ADMIN, 100).unwrap();
    c.suspend_credit_line(ADMIN, BORROWER, 1_000).unwrap();
    assert_eq!(c.default_credit_line(ADMIN, BORROWER, 1_099), Err(ContractError::AdminCooldownActive));
    c.default_credit_line(ADMIN, BORROWER, 1_100).unwrap();
    assert_eq!(c.get_credit_line(BORROWER).unwrap().status, CreditStatus::Defaulted);
}

// ── risk settings ────────────────────────────────────────────────────────────

#[test]
fn rate_floor_and_ceiling_bound_updates() {
    let mut c = init();
    c.open_credit_line(ADMIN, BORROWER, 10_000, 300, 70, 0).unwrap();
    c.set_borrower_rate_floor(ADMIN, BORROWER, Some(400)).unwrap();
    assert_eq!(c.set_borrower_rate_ceiling(ADMIN, BORROWER, Some(399)), Err(ContractError::RateTooHigh));
    c.set_borrower_rate_ceiling(ADMIN, BORROWER, Some(800)).unwrap();
    assert_eq!(c.set_borrower_rate_floor(ADMIN, BORROWER, Some(801)), Err(ContractError::RateTooHigh));
    c.update_risk_parameters(ADMIN, BORROWER, 10_000, 100, 70, 0).unwrap();
    assert_eq!(c.get_credit_line(BORROWER).unwrap().interest_rate_bps, 400);
    c.update_risk_parameters(ADMIN, BORROWER, 10_000, 5_000, 70, 0).unwrap();
    assert_eq!(c.get_credit_line(BORROWER).unwrap().interest_rate_bps, 800);
    c.set_borrower_rate_floor(ADMIN, BORROWER, None).unwrap();
    assert_eq!(c.get_borrower_rate_floor(BORROWER), None);
    assert_eq!(c.get_borrower_rate_ceiling(BORROWER), Some(800));
}

#[test]
fn rate_formula_prices_from_score() {
    let mut c = init();
    c.open_credit_line(ADMIN, BORROWER, 10_000, 300, 70, 0).unwrap();
    assert_eq!(c.set_rate_formula_config(ADMIN, 100, 10, 600, 500), Err(ContractError::InvalidAmount));
    assert_eq!(c.set_rate_formula_config(ADMIN, 100, 10, 100, 10_001), Err(ContractError::RateTooHigh));
    c.set_rate_formula_config(ADMIN, 200, 10, 250, 1_000).unwrap();
    // 200 + 10 × 50 = 700, inside [250, 1000]
    c.update_risk_parameters(ADMIN, BORROWER, 10_000, 9_999, 50, 0).unwrap();
    assert_eq!(c.get_credit_line(BORROWER).unwrap().interest_rate_bps, 700);
    c.clear_rate_formula_config(ADMIN).unwrap();
    assert_eq!(c.get_rate_formula_config(), None);
}

#[test]
fn caps_and_bounds_settings() {
    let mut c = init();
    assert_eq!(c.set_borrower_exposure_cap(ADMIN, BORROWER, -1), Err(ContractError::InvalidAmount));
    c.set_borrower_exposure_cap(ADMIN, BORROWER, 500).unwrap();
    assert_eq!(c.get_borrower_exposure_cap(BORROWER), Some(500));
    c.set_borrower_exposure_cap(ADMIN, BORROWER, 0).unwrap();
    assert_eq!(c.get_borrower_exposure_cap(BORROWER), None);
    c.set_utilization_cap(ADMIN, BORROWER, 5_000).unwrap();
    assert_eq!(c.get_utilization_cap(BORROWER), Some(5_000));
    c.set_utilization_cap(ADMIN, BORROWER, 0).unwrap();
    assert_eq!(c.get_utilization_cap(BORROWER), None);
    assert_eq!(c.set_max_total_exposure(ADMIN, -5), Err(ContractError::InvalidAmount));
    c.set_max_total_exposure(ADMIN, 1_000).unwrap();
    assert_eq!(c.get_max_total_exposure(), Some(1_000));
    assert_eq!(c.set_credit_limit_bounds(ADMIN, -1, 10), Err(ContractError::InvalidAmount));
    assert_eq!(c.set_credit_limit_bounds(ADMIN, 10, 9), Err(ContractError::LimitOutOfBounds));
    c.set_credit_limit_bounds(ADMIN, 100, 1_000).unwrap();
    assert_eq!(c.get_credit_limit_bounds(), (Some(100), Some(1_000)));
    assert_eq!(c.open_credit_line(ADMIN, BORROWER, 1_001, 300, 70, 0), Err(ContractError::LimitOutOfBounds));
    assert_eq!(c.set_max_draw_amount(ADMIN, 0), Err(ContractError::InvalidAmount));
    c.set_max_draw_amount(ADMIN, 10).unwrap();
    assert_eq!(c.get_max_draw_amount(), Some(10));
    c.set_draw_min_interval(ADMIN, 60).unwrap();
    assert_eq!(c.get_draw_min_interval(), Some(60));
    c.set_penalty_surcharge_bps(ADMIN, 200).unwrap();
    assert_eq!(c.get_penalty_surcharge_bps(), 200);
}

#[test]
fn grace_and_late_fee_settings() {
    let mut c = init();
    assert_eq!(c.set_grace_period_config(ADMIN, 10, GraceWaiverMode::ReducedRate, 10_001), Err(ContractError::RateTooHigh));
    c.set_grace_period_config(ADMIN, 10, GraceWaiverMode::FullWaiver, 0).unwrap();
    assert_eq!(c.get_grace_period_config().unwrap().grace_period_seconds, 10);
    let flat = Some(LateFeeConfig::Flat(FlatFeeConfig { amount: -1 }));
    assert_eq!(c.set_late_fee_config(ADMIN, flat), Err(ContractError::InvalidAmount));
    let apr = Some(LateFeeConfig::AprBased(AprFeeConfig { surcharge_bps: 10_001 }));
    assert_eq!(c.set_late_fee_config(ADMIN, apr), Err(ContractError::RateTooHigh));
    let ok = Some(LateFeeConfig::Flat(FlatFeeConfig { amount: 25 }));
    c.set_late_fee_config(ADMIN, ok).unwrap();
    assert_eq!(c.get_late_fee_config(), ok);
    c.set_late_fee_flat(ADMIN, 7).unwrap();
    assert_eq!(c.get_late_fee_flat(), 7);
    c.set_per_borrower_liquidation_grace(ADMIN, BORROWER, 30).unwrap();
    assert_eq!(c.get_per_borrower_liquidation_grace(BORROWER), 30);
    c.set_per_borrower_liquidation_grace(ADMIN, BORROWER, 0).unwrap();
    assert_eq!(c.get_per_borrower_liquidation_grace(BORROWER), 0);
}

#[test]
fn delinquency_after_missed_installment_and_grace() {
    let mut c = init();
    c.set_liquidity_token(ADMIN, TOKEN).unwrap();
    c.deposit_collateral(BORROWER, 1_000_000).unwrap();
    c.open_credit_line(ADMIN, BORROWER, 10_000, 300, 70, 0).unwrap();
    c.draw_credit(BORROWER, 100, 0, 1_000_000).unwrap();
    assert!(!c.is_delinquent(BORROWER, 5_000));
    c.set_repayment_schedule(ADMIN, BORROWER, 10, 100, 1_000).unwrap();
    assert_eq!(c.get_repayment_schedule(BORROWER).unwrap().next_due_ts, 1_000);
    assert!(!c.is_delinquent(BORROWER, 1_000));
    assert!(c.is_delinquent(BORROWER, 1_001));
    c.set_per_borrower_liquidation_grace(ADMIN, BORROWER, 50).unwrap();
    assert!(!c.is_delinquent(BORROWER, 1_050));
    assert!(c.is_delinquent(BORROWER, 1_051));
}

// ── oracle-guarded settlement ────────────────────────────────────────────────

#[test]
fn oracle_config_validation() {
    let mut c = init();
    assert_eq!(c.set_oracle_config(ADMIN, 0, 10), Err(ContractError::InvalidAmount));
    assert_eq!(c.set_oracle_config(ADMIN, 10_001, 10), Err(ContractError::InvalidAmount));
    assert_eq!(c.set_oracle_config(ADMIN, 500, 0), Err(ContractError::InvalidAmount));
    assert_eq!(c.set_oracle_quorum_config(ADMIN, 1, 500, 10), Err(ContractError::InvalidAmount));
    assert_eq!(c.set_close_factor_bps(ADMIN, 0), Err(ContractError::InvalidAmount));
    assert_eq!(c.get_close_factor_bps(), 10_000);
    c.set_close_factor_bps(ADMIN, 5_000).unwrap();
    assert_eq!(c.get_close_factor_bps(), 5_000);
}

#[test]
fn settlement_oracle_gate() {
    let mut c = defaulted_line();
    c.set_oracle_config(ADMIN, 500, 3_600).unwrap();
    assert_eq!(c.settle_default_liquidation(ADMIN, BORROWER, 100, 1, 10_000, None, None, 1_000),
        Err(ContractError::OraclePriceInvalid));
    assert_eq!(c.settle_default_liquidation(ADMIN, BORROWER, 100, 1, 10_000, Some(0), None, 1_000),
        Err(ContractError::OraclePriceInvalid));
    c.settle_default_liquidation(ADMIN, BORROWER, 100, 1, 10_000, Some(1_000), None, 1_000).unwrap();
    assert_eq!(c.get_oracle_last_price(), (Some(1_000), Some(1_000)));
    // 6 % move against a 5 % bound.
    assert_eq!(c.settle_default_liquidation(ADMIN, BORROWER, 100, 2, 10_000, Some(1_060), None, 1_100),
        Err(ContractError::OraclePriceDeviation));
    assert_eq!(c.settle_default_liquidation(ADMIN, BORROWER, 100, 2, 10_000, Some(1_040), None, 4_601),
        Err(ContractError::OraclePriceStale));
    c.settle_default_liquidation(ADMIN, BORROWER, 100, 2, 10_000, Some(1_040), None, 4_600).unwrap();
    assert_eq!(c.get_oracle_last_price(), (Some(1_040), Some(4_600)));
    assert_eq!(c.get_credit_line(BORROWER).unwrap().utilized_amount, 800);
}

#[test]
fn settlement_checks_auction_and_admin() {
    let mut c = defaulted_line();
    c.set_auction_contract(ADMIN, 70).unwrap();
    assert_eq!(c.get_auction_contract(), Some(70));
    assert_eq!(c.settle_default_liquidation(ADMIN, BORROWER, 100, 1, 10_000, None, Some(99), 0),
        Err(ContractError::InvalidAmount));
    assert_eq!(c.settle_default_liquidation(ADMIN, BORROWER, 100, 1, 10_000, None, None, 0),
        Err(ContractError::InvalidAmount));
    assert_eq!(c.settle_default_liquidation(OTHER, BORROWER, 100, 1, 10_000, None, Some(100), 0),
        Err(ContractError::Unauthorized));
    c.settle_default_liquidation(ADMIN, BORROWER, 100, 1, 10_000, None, Some(100), 0).unwrap();
    assert_eq!(c.get_credit_line(BORROWER).unwrap().utilized_amount, 900);
}

#[test]
fn settlement_applies_recovery_once_within_close_factor() {
    let mut c = defaulted_line();
    assert_eq!(c.settle_default_liquidation(ADMIN, BORROWER, 0, 1, 10_000, None, None, 0), Err(ContractError::InvalidAmount));
    assert_eq!(c.settle_default_liquidation(ADMIN, BORROWER, 100, 1, 0, None, None, 0), Err(ContractError::InvalidAmount));
    assert_eq!(c.settle_default_liquidation(ADMIN, BORROWER, 100, 1, 10_001, None, None, 0), Err(ContractError::InvalidAmount));
    assert_eq!(c.settle_default_liquidation(ADMIN, 77, 100, 1, 10_000, None, None, 0), Err(ContractError::CreditLineNotFound));
    // The protocol caps one settlement at half the debt.
    c.set_close_factor_bps(ADMIN, 5_000).unwrap();
    c.settle_default_liquidation(ADMIN, BORROWER, 800, 1, 10_000, None, None, 0).unwrap();
    assert_eq!(c.get_credit_line(BORROWER).unwrap().utilized_amount, 500);
    assert_eq!(c.get_total_utilized(), 500);
    // Replaying the same settlement id is refused and changes nothing.
    assert_eq!(c.settle_default_liquidation(ADMIN, BORROWER, 800, 1, 10_000, None, None, 0),
        Err(ContractError::AlreadyInitialized));
    assert_eq!(c.get_credit_line(BORROWER).unwrap().utilized_amount, 500);
    // A tighter requested factor wins over the protocol's: 20 % of 500.
    c.settle_default_liquidation(ADMIN, BORROWER, 1_000, 2, 2_000, None, None, 0).unwrap();
    assert_eq!(c.get_credit_line(BORROWER).unwrap().utilized_amount, 400);
    assert_eq!(c.get_credit_line(BORROWER).unwrap().status, CreditStatus::Defaulted);
}

#[test]
fn settlement_needs_defaulted_line() {
    let mut c = init();
    c.open_credit_line(ADMIN, BORROWER, 10_000, 300, 70, 0).unwrap();
    assert_eq!(c.settle_default_liquidation(ADMIN, BORROWER, 100, 1, 10_000, None, None, 0),
        Err(ContractError::CreditLineDefaulted));
}

#[test]
fn quorum_mode_needs_fresh_stored_price() {
    let mut c = init();
    c.set_oracle_quorum_config(ADMIN, 2, 500, 60).unwrap();
    assert_eq!(c.settle_default_liquidation(ADMIN, BORROWER, 100, 1, 10_000, Some(5), None, 0),
        Err(ContractError::OraclePriceInvalid));
}

// ── draw reversal ────────────────────────────────────────────────────────────

#[test]
fn reverse_draw_checks_then_finds_no_audit_record() {
    let mut c = init();
    c.open_credit_line(ADMIN, BORROWER, 10_000, 300, 70, 0).unwrap();
    assert_eq!(c.reverse_draw(OTHER, BORROWER, 10, 0, 0), Err(ContractError::Unauthorized));
    assert_eq!(c.reverse_draw(ADMIN, BORROWER, 0, 0, 0), Err(ContractError::InvalidAmount));
    assert_eq!(c.reverse_draw(ADMIN, BORROWER, 10, 0, 3_601), Err(ContractError::DrawReversalWindowExpired));
    assert_eq!(c.reverse_draw(ADMIN, 77, 10, 0, 3_600), Err(ContractError::CreditLineNotFound));
    assert_eq!(c.reverse_draw(ADMIN, BORROWER, 10, 0, 3_600), Err(ContractError::OriginalDrawNotFound));
    c.set_protocol_paused(ADMIN, true).unwrap();
    assert_eq!(c.reverse_draw(ADMIN, BORROWER, 10, 0, 0), Err(ContractError::Paused));
}

#[test]
fn reverse_draw_undoes_recorded_draw_up_to_its_amount() {
    let mut c = init();
    c.set_liquidity_token(ADMIN, TOKEN).unwrap();
    c.deposit_collateral(BORROWER, 1_000_000).unwrap();
    c.open_credit_line(ADMIN, BORROWER, 10_000, 300, 70, 0).unwrap();
    c.draw_credit(BORROWER, 1_000, 100, 1_000_000).unwrap();
    // A draw at another time is not the one being reversed.
    assert_eq!(c.reverse_draw(ADMIN, BORROWER, 10, 99, 200), Err(ContractError::OriginalDrawNotFound));
    assert_eq!(c.reverse_draw(ADMIN, BORROWER, 1_001, 100, 200), Err(ContractError::OverLimit));
    c.reverse_draw(ADMIN, BORROWER, 400, 100, 200).unwrap();
    assert_eq!(c.get_credit_line(BORROWER).unwrap().utilized_amount, 600);
    assert_eq!(c.get_total_utilized(), 600);
    // Only 600 of that draw is left to reverse.
    assert_eq!(c.reverse_draw(ADMIN, BORROWER, 700, 100, 300), Err(ContractError::OverLimit));
    assert_eq!(c.reverse_draw(ADMIN, BORROWER, 600, 100, 3_701), Err(ContractError::DrawReversalWindowExpired));
    c.reverse_draw(ADMIN, BORROWER, 600, 100, 3_700).unwrap();
    assert_eq!(c.get_credit_line(BORROWER).unwrap().utilized_amount, 0);
    assert_eq!(c.get_total_utilized(), 0);
    assert_eq!(c.reverse_draw(ADMIN, BORROWER, 1, 100, 3_700), Err(ContractError::OverLimit));
}

// ── queries ──────────────────────────────────────────────────────────────────

#[test]
fn enumerate_credit_lines_pages_by_id() {
    let mut c = init();
    for b in 10..15u64 {
        c.open_credit_line(ADMIN, b, 1_000 + b as i128, 300, 70, 0).unwrap();
    }
    assert_eq!(c.get_credit_line_count(), 5);
    let first = c.enumerate_credit_lines(None, 2);
    assert_eq!(first.iter().map(|(id, l)| (*id, l.borrower)).collect::<Vec<_>>(), vec![(0, 10), (1, 11)]);
    let next = c.enumerate_credit_lines(Some(1), 2);
    assert_eq!(next.iter().map(|(id, l)| (*id, l.borrower)).collect::<Vec<_>>(), vec![(2, 12), (3, 13)]);
    let rest = c.enumerate_credit_lines(Some(3), 100);
    assert_eq!(rest.len(), 1);
    assert!(c.enumerate_credit_lines(Some(4), 10).is_empty());
    assert!(c.enumerate_credit_lines(None, 0).is_empty());
    assert!(c.enumerate_credit_lines(Some(u32::MAX), 10).is_empty());
}

#[test]
fn protocol_summary_counts() {
    let mut c = init();
    c.set_liquidity_token(ADMIN, TOKEN).unwrap();
    c.deposit_collateral(BORROWER, 900).unwrap();
    c.open_credit_line(ADMIN, BORROWER, 10_000, 300, 70, 0).unwrap();
    c.open_credit_line(ADMIN, 3, 10_000, 300, 70, 0).unwrap();
    c.draw_credit(BORROWER, 600, 0, 1_000_000).unwrap();
    let s = c.get_protocol_summary();
    assert_eq!((s.count, s.total_utilized, s.total_collateral), (2, 600, 900));
    assert_eq!(c.get_active_line_count(), 2);
    c.suspend_credit_line(ADMIN, 3, 0).unwrap();
    assert_eq!(c.get_active_line_count(), 1);
}

// ── VRF commitments ──────────────────────────────────────────────────────────

#[test]
fn vrf_commitment_binds_score() {
    let mut c = init();
    c.open_credit_line(ADMIN, BORROWER, 10_000, 300, 70, 0).unwrap();
    let hash = [2u8; 32]; // byte sum 64 → score 64
    assert_eq!(c.verify_vrf_commitment(BORROWER, 64), Err(ContractError::CreditLineNotFound));
    c.commit_vrf_output(ADMIN, BORROWER, hash, 5).unwrap();
    assert_eq!(c.commit_vrf_output(ADMIN, BORROWER, hash, 6), Err(ContractError::InvalidAmount));
    assert_eq!(c.get_vrf_commitment(BORROWER).unwrap().committed_at, 5);
    assert_eq!(c.verify_vrf_commitment(BORROWER, 64), Ok(true));
    assert_eq!(c.verify_vrf_commitment(BORROWER, 65), Ok(false));
    assert_eq!(c.update_risk_parameters(ADMIN, BORROWER, 10_000, 300, 65, 0), Err(ContractError::Unauthorized));
    c.update_risk_parameters(ADMIN, BORROWER, 10_000, 300, 64, 0).unwrap();
    c.clear_vrf_commitment(ADMIN, BORROWER).unwrap();
    assert!(c.get_vrf_commitment(BORROWER).is_none());
}

#[test]
fn pause_with_reason_records_actor_and_time() {
    let env = soroban_sdk::Env::default();
    let maint = soroban_sdk::Symbol::new(&env, "maint");
    let mut c = init();
    assert!(c.get_protocol_pause_reason().is_none());
    assert_eq!(c.set_protocol_paused_with_reason(OTHER, true, maint.clone(), 5), Err(ContractError::Unauthorized));
    c.set_protocol_paused_with_reason(ADMIN, true, maint.clone(), 5).unwrap();
    assert!(c.is_protocol_paused());
    let r = c.get_protocol_pause_reason().as_ref().unwrap();
    assert_eq!((r.timestamp, r.actor), (5, ADMIN));
    assert_eq!(r.reason, maint);
    c.set_protocol_paused_with_reason(ADMIN, false, soroban_sdk::Symbol::new(&env, "done"), 9).unwrap();
    assert!(!c.is_protocol_paused());
    assert_eq!(c.get_protocol_pause_reason().as_ref().unwrap().timestamp, 5);
}

#[test]
fn reverse_draw_after_partial_repayment_goes_below_zero() {
    let mut c = init();
    c.set_liquidity_token(ADMIN, TOKEN).unwrap();
    c.deposit_collateral(BORROWER, 1_000_000).unwrap();
    c.open_credit_line(ADMIN, BORROWER, 10_000, 300, 70, 0).unwrap();
    c.draw_credit(BORROWER, 1_000, 100, 1_000_000).unwrap();
    c.repay_credit(BORROWER, 800, 100).unwrap();
    assert_eq!(c.get_credit_line(BORROWER).unwrap().utilized_amount, 200);
    // The reversal is bounded by the recorded draw, not by what is still owed.
    c.reverse_draw(ADMIN, BORROWER, 1_000, 100, 200).unwrap();
    assert_eq!(c.get_credit_line(BORROWER).unwrap().utilized_amount, -800);
    assert_eq!(c.get_total_utilized(), -800);
    // Accruing later reads the negative balance as a `u128` principal,
    // which overflows; at the accrual checkpoint nothing accrues and the
    // exhausted draw is refused.
    assert_eq!(c.reverse_draw(ADMIN, BORROWER, 1, 100, 200), Err(ContractError::Overflow));
    assert_eq!(c.get_credit_line(BORROWER).unwrap().last_accrual_ts, 0);
    assert_eq!(c.reverse_draw(ADMIN, BORROWER, 1, 100, 0), Err(ContractError::OverLimit));
    // A keeper batch skips a negative balance.
    let ev = c.accrue_batch(&vec![BORROWER], 1_000_000).unwrap();
    assert_eq!(ev.lines_accrued, 0);
    // A repayment caps at the (negative) utilization and clears it to zero.
    let r = c.repay_credit(BORROWER, 10, 0).unwrap();
    assert_eq!((r.effective_repay, r.new_utilized_amount), (-800, 0));
    assert_eq!(c.get_total_utilized(), 0);
}
