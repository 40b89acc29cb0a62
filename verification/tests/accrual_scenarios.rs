use creditra_credit::types::CreditLineData;
use creditra_credit::Credit;

const CONTRACT: u64 = 1_000;
const ADMIN: u64 = 1;
const TOKEN: u64 = 50;
const BORROWER_COUNT: u64 = 3;
const INITIAL_TIMESTAMP: u64 = 1_000;
const LIQUIDITY_AMOUNT: i128 = 10_000_000;

/// Three borrowers (ids 10, 11, 12) with growing limits and rates, each
/// holding ample collateral.
fn setup_env() -> (Credit, Vec<u64>) {
    let mut c = Credit::new(CONTRACT);
    c.init(ADMIN).unwrap();
    c.set_liquidity_token(ADMIN, TOKEN).unwrap();
    c.set_liquidity_source(ADMIN, CONTRACT).unwrap();
    let mut borrowers = Vec::new();
    for i in 0..BORROWER_COUNT {
        let borrower = 10 + i;
        c.deposit_collateral(borrower, 1_000_000_000).unwrap();
        let credit_limit = 50_000_i128 + (i as i128 * 20_000_i128);
        let rate_bps = 1_000_u32 + (i as u32 * 500_u32);
        let score = 30_u32 + (i as u32 * 10_u32);
        c.open_credit_line(ADMIN, borrower, credit_limit, rate_bps, score, INITIAL_TIMESTAMP).unwrap();
        borrowers.push(borrower);
    }
    (c, borrowers)
}

fn line(c: &Credit, b: u64) -> CreditLineData {
    c.get_credit_line(b).unwrap()
}

#[test]
fn zero_utilization_zero_accrual() {
    let (mut c, borrowers) = setup_env();
    let borrower = borrowers[0];
    let now = INITIAL_TIMESTAMP + 31_536_000;
    c.update_risk_parameters(ADMIN, borrower, 50_000, 10_000, 50, now).unwrap();
    let l = line(&c, borrower);
    assert_eq!(l.accrued_interest, 0, "zero utilization must produce zero interest");
    assert_eq!(l.utilized_amount, 0);
}

/// Draw, wait a full 365-day year at the maximum rate (100 % APR), and
/// check that accrued interest stays within the utilized amount. An open
/// line is not re-opened, so the line's terms are moved to the maximum
/// rate by a risk update instead.
#[test]
fn max_rate_one_year_bound() {
    let (mut c, borrowers) = setup_env();
    let borrower = borrowers[0];
    c.update_risk_parameters(ADMIN, borrower, 1_000_000, 10_000, 50, INITIAL_TIMESTAMP).unwrap();
    c.draw_credit(borrower, 100_000, INITIAL_TIMESTAMP, LIQUIDITY_AMOUNT).unwrap();
    c.update_risk_parameters(ADMIN, borrower, 1_000_000, 10_000, 50, INITIAL_TIMESTAMP + 31_536_000).unwrap();
    let l = line(&c, borrower);
    assert!(l.accrued_interest > 0, "should have accrued interest at max rate");
    assert!(l.accrued_interest <= l.utilized_amount,
        "accrued_interest ({}) must not exceed utilized_amount ({})", l.accrued_interest, l.utilized_amount);
}

#[test]
fn accrual_monotonic_without_repayment() {
    let (mut c, borrowers) = setup_env();
    let borrower = borrowers[0];
    let mut now = INITIAL_TIMESTAMP;
    c.draw_credit(borrower, 10_000, now, LIQUIDITY_AMOUNT).unwrap();

    let mut prev_utilized = 0_i128;
    for quarter in 1..=4 {
        now += 7_884_000;
        c.update_risk_parameters(ADMIN, borrower, 50_000, 500, 30, now).unwrap();
        let l = line(&c, borrower);
        assert!(l.utilized_amount >= prev_utilized, "quarter {quarter}: utilized decreased");
        assert!(l.accrued_interest <= l.utilized_amount, "quarter {quarter}: accrued > utilized");
        prev_utilized = l.utilized_amount;
    }
    assert!(prev_utilized > 10_000);
}

#[test]
fn over_repay_resets_accrued_interest() {
    let (mut c, borrowers) = setup_env();
    let borrower = borrowers[0];
    c.draw_credit(borrower, 10_000, INITIAL_TIMESTAMP, LIQUIDITY_AMOUNT).unwrap();
    let now = INITIAL_TIMESTAMP + 15_768_000;
    c.update_risk_parameters(ADMIN, borrower, 50_000, 1_000, 30, now).unwrap();

    let l = line(&c, borrower);
    assert!(l.accrued_interest > 0);
    let overpay = l.utilized_amount + 1_000;
    c.repay_credit(borrower, overpay, now).unwrap();

    let l = line(&c, borrower);
    assert_eq!(l.utilized_amount, 0, "over-repay must zero utilization");
    assert_eq!(l.accrued_interest, 0, "over-repay must zero accrued_interest");
}

#[test]
fn batch_empty_succeeds() {
    let (mut c, _borrowers) = setup_env();
    let ev = c.accrue_batch(&vec![], INITIAL_TIMESTAMP).unwrap();
    assert_eq!(ev.borrowers_processed, 0);
    assert_eq!(ev.lines_accrued, 0);
    assert!(c.get_total_utilized() >= 0);
}

#[test]
fn batch_mixed_existing_and_missing() {
    let (mut c, borrowers) = setup_env();
    c.draw_credit(borrowers[0], 5_000, INITIAL_TIMESTAMP, LIQUIDITY_AMOUNT).unwrap();
    let now = INITIAL_TIMESTAMP + 86_400 * 15;
    c.accrue_batch(&vec![borrowers[0], 999], now).unwrap();
    for b in &borrowers {
        let l = line(&c, *b);
        assert!(l.accrued_interest <= l.utilized_amount);
    }
    assert!(line(&c, borrowers[0]).accrued_interest > 0);
}

#[test]
fn batch_consistent_with_individual_accrual() {
    let (mut batched, borrowers) = setup_env();
    let (mut single, _) = setup_env();
    for (k, b) in borrowers.iter().enumerate() {
        let amount = 5_000 + 1_000 * k as i128;
        batched.draw_credit(*b, amount, INITIAL_TIMESTAMP, LIQUIDITY_AMOUNT).unwrap();
        single.draw_credit(*b, amount, INITIAL_TIMESTAMP, LIQUIDITY_AMOUNT).unwrap();
    }
    let now = INITIAL_TIMESTAMP + 31_557_600 / 4;
    let before = batched.get_total_utilized();
    let ev = batched.accrue_batch(&vec![borrowers[0], 999, borrowers[1], borrowers[2]], now).unwrap();
    assert_eq!(ev.borrowers_processed, 4);
    assert_eq!(ev.lines_accrued, 3);
    assert_eq!(batched.get_total_utilized(), before + ev.total_interest_accrued);
    for b in &borrowers {
        let l = line(&single, *b);
        single.update_risk_parameters(ADMIN, *b, l.credit_limit, l.interest_rate_bps, l.risk_score, now).unwrap();
        let (x, y) = (line(&batched, *b), line(&single, *b));
        assert_eq!((x.utilized_amount, x.accrued_interest), (y.utilized_amount, y.accrued_interest));
    }
    // The first line: 5 000 at 1 000 bps for a quarter of the accrual year.
    assert_eq!(line(&batched, borrowers[0]).accrued_interest, 125);
}
