//! Interest accrual for credit lines.
//!
//! Interest is capitalized lazily: every mutating entrypoint first applies
//! the interest owed since `last_accrual_ts`, adding it to both
//! `utilized_amount` and `accrued_interest`. The effective rate includes
//! the penalty surcharge for delinquent lines (capped at 10 000 bps), and a
//! suspended line inside its grace window accrues nothing (full waiver) or
//! accrues at the reduced grace rate. All amounts round down.

use vstd::prelude::*;
use crate::math_utils::{prorate_interest, prorate_spec, Rounding};
use crate::risk::MAX_INTEREST_RATE_BPS;
use crate::types::{ContractError, CreditLineData, CreditStatus, GracePeriodConfig, GraceWaiverMode};

verus! {

/// Seconds in a 365-day year, used by [`compute_interest`].
pub const SECONDS_PER_YEAR: u64 = 31_536_000;

/// Maximum number of borrowers processed by one keeper accrual batch.
pub const ACCRUE_BATCH_MAX: u32 = 50;

/// Emitted after a batch accrual operation completes.
#[derive(Clone, Copy, Debug, PartialEq, Eq, Structural)]
pub struct AccrualBatchCompletedEvent {
    /// Number of borrower addresses submitted in the batch.
    pub borrowers_processed: u32,
    /// Number of credit lines that had interest capitalized.
    pub lines_accrued: u32,
    /// Total interest capitalized across the batch.
    pub total_interest_accrued: i128,
    /// Ledger timestamp when the batch was executed.
    pub timestamp: u64,
}

/// Everything accrual reads besides the line itself.
#[derive(Clone, Copy, Debug, PartialEq, Eq, Structural)]
pub struct AccrualContext {
    /// Current ledger timestamp.
    pub now: u64,
    /// Whether the borrower is past due beyond the grace window.
    pub is_delinquent: bool,
    /// Surcharge added to the rate of delinquent lines.
    pub penalty_surcharge_bps: u32,
    /// Grace policy for suspended lines, if configured.
    pub grace: Option<GracePeriodConfig>,
}

/// What an accrual step did, for the events the contract publishes.
#[derive(Clone, Copy, Debug, PartialEq, Eq, Structural)]
pub struct AccrualOutcome {
    /// Interest capitalized by this step (0 when nothing accrued).
    pub accrued: i128,
    /// Interest waived by the grace policy (0 when nothing was waived).
    pub waived: u128,
    /// `Some(effective rate)` when the penalty surcharge was applied.
    pub penalty_rate_bps: Option<u32>,
}

/// Truncating (toward zero) integer division, as Rust's `/` on signed values.
pub open spec fn trunc_div(x: int, d: int) -> int {
    if x >= 0 { x / d } else { -((-x) / d) }
}

/// Simple interest `utilized × rate × seconds / (10_000 × 31_536_000)`,
/// truncated toward zero; `Overflow` when an intermediate product leaves `i128`.
pub fn compute_interest(utilized: i128, rate_bps: i128, seconds: i128) -> (result: Result<i128, ContractError>)
    ensures
        (i128::MIN <= utilized * rate_bps <= i128::MAX
            && i128::MIN <= utilized * rate_bps * seconds <= i128::MAX)
            ==> result == Ok::<i128, ContractError>(
                trunc_div(utilized * rate_bps * seconds, 10_000 * SECONDS_PER_YEAR) as i128),
        !(i128::MIN <= utilized * rate_bps <= i128::MAX
            && i128::MIN <= utilized * rate_bps * seconds <= i128::MAX)
            ==> result == Err::<i128, ContractError>(ContractError::Overflow),
{
    let denominator: i128 = 315_360_000_000;
    let step1 = match utilized.checked_mul(rate_bps) {
        Some(v) => v,
        None => return Err(ContractError::Overflow),
    };
    let val = match step1.checked_mul(seconds) {
        Some(v) => v,
        None => return Err(ContractError::Overflow),
    };
    if val >= 0 {
        Ok(val / denominator)
    } else {
        let pos: i128 = if val == i128::MIN { i128::MAX } else { -val };
        let q = if val == i128::MIN {
            // |i128::MIN| = i128::MAX + 1, and the denominator does not divide it
            proof {
                assert((i128::MAX as int + 1) / 315_360_000_000 == (i128::MAX as int) / 315_360_000_000);
            }
            pos / denominator
        } else {
            pos / denominator
        };
        Ok(-q)
    }
}

/// The rate charged: base rate, plus the surcharge for delinquent lines,
/// capped at 10 000 bps.
pub open spec fn effective_rate(rate: int, is_delinquent: bool, surcharge: int) -> int {
    if is_delinquent && surcharge > 0 {
        let with = if rate + surcharge > u32::MAX as int { u32::MAX as int } else { rate + surcharge };
        if with > MAX_INTEREST_RATE_BPS as int { MAX_INTEREST_RATE_BPS as int } else { with }
    } else {
        rate
    }
}

/// Whether `prorate_interest(u, r, t, _)` stays within `u128`.
pub open spec fn prorate_fits(u: int, r: int, t: int) -> bool {
    u == 0 || r == 0 || t == 0 || u * r * t <= u128::MAX
}

/// Floor-rounded interest for `u` at `r` over `t` seconds.
pub open spec fn p_floor(u: int, r: int, t: int) -> int {
    prorate_spec(u, r, t, Rounding::Floor)
}

/// `a + b` saturating at `u64::MAX`.
pub open spec fn sat_add_u64(a: int, b: int) -> int {
    if a + b > u64::MAX as int { u64::MAX as int } else { a + b }
}

/// `max(x, 0)`.
pub open spec fn pos_part(x: int) -> int {
    if x > 0 { x } else { 0 }
}

/// The principal interest is charged on: the utilized amount read as a
/// `u128`, as the accrual arithmetic reads it (a negative utilization left
/// by a draw reversal reads as its two's-complement value).
pub open spec fn principal_of(utilized: i128) -> int {
    (utilized as u128) as int
}

/// The interest due and the interest waived over `(line.last_accrual_ts, now]`,
/// or `None` when an intermediate product overflows `u128`.
pub open spec fn accrual_amounts(line: CreditLineData, ctx: AccrualContext) -> Option<(int, int)> {
    let u = principal_of(line.utilized_amount);
    let r = effective_rate(line.interest_rate_bps as int, ctx.is_delinquent, ctx.penalty_surcharge_bps as int);
    let start = line.last_accrual_ts as int;
    let now = ctx.now as int;
    let plain = if prorate_fits(u, r, now - start) { Some((p_floor(u, r, now - start), 0int)) } else { None };
    if line.status == CreditStatus::Suspended && ctx.grace is Some && ctx.grace->0.grace_period_seconds > 0 {
        let cfg = ctx.grace->0;
        let red = cfg.reduced_rate_bps as int;
        let full_waiver = cfg.waiver_mode == GraceWaiverMode::FullWaiver;
        let grace_end = sat_add_u64(line.suspension_ts as int, cfg.grace_period_seconds as int);
        if now <= grace_end {
            let e = now - start;
            if prorate_fits(u, r, e) && (full_waiver || prorate_fits(u, red, e)) {
                let actual = if full_waiver { 0 } else { p_floor(u, red, e) };
                Some((actual, pos_part(p_floor(u, r, e) - actual)))
            } else {
                None
            }
        } else if start >= grace_end {
            plain
        } else {
            let in_w = grace_end - start;
            let post = now - grace_end;
            if (full_waiver || prorate_fits(u, red, in_w)) && prorate_fits(u, r, in_w) && prorate_fits(u, r, post) {
                let actual_in = if full_waiver { 0 } else { p_floor(u, red, in_w) };
                let total = actual_in + p_floor(u, r, post);
                if total <= u128::MAX {
                    Some((total, pos_part(p_floor(u, r, in_w) - actual_in)))
                } else {
                    None
                }
            } else {
                None
            }
        }
    } else {
        plain
    }
}

/// The result of applying accrual to `line` at `ctx`: the updated line and
/// outcome, or `Overflow`.
pub open spec fn accrual_spec(line: CreditLineData, ctx: AccrualContext) -> Result<(CreditLineData, int, int), ContractError> {
    if ctx.now <= line.last_accrual_ts || line.utilized_amount == 0 {
        Ok((line, 0int, 0int))
    } else {
        match accrual_amounts(line, ctx) {
            None => Err(ContractError::Overflow),
            Some((a, w)) =>
                if a > i128::MAX {
                    Err(ContractError::Overflow)
                } else if a == 0 {
                    Ok((line, 0int, w))
                } else if line.utilized_amount + a > i128::MAX || line.accrued_interest + a > i128::MAX {
                    Err(ContractError::Overflow)
                } else {
                    Ok((CreditLineData {
                        utilized_amount: (line.utilized_amount + a) as i128,
                        accrued_interest: (line.accrued_interest + a) as i128,
                        last_accrual_ts: ctx.now,
                        ..line
                    }, a, w))
                },
        }
    }
}

/// Checked prorating: `None` exactly when the intermediate product overflows.
fn prorate_checked(u: u128, r: u32, t: u64) -> (res: Option<u128>)
    ensures
        res == (if prorate_fits(u as int, r as int, t as int) {
            Some(p_floor(u as int, r as int, t as int) as u128)
        } else {
            None::<u128>
        }),
        res matches Some(v) ==> v as int == p_floor(u as int, r as int, t as int),
{
    if u == 0 || r == 0 || t == 0 {
        let v = prorate_interest(u, r, t, Rounding::Floor);
        return Some(v);
    }
    let step1 = match u.checked_mul(r as u128) {
        Some(s) => s,
        None => {
            proof {
                assert(u * r <= u * r * t) by (nonlinear_arith)
                    requires t >= 1, u >= 0, r >= 0;
            }
            return None;
        },
    };
    match step1.checked_mul(t as u128) {
        Some(_) => Some(prorate_interest(u, r, t, Rounding::Floor)),
        None => None,
    }
}

/// The effective rate for a line at `ctx`.
fn effective_rate_exec(rate: u32, ctx: &AccrualContext) -> (r: u32)
    requires
        rate <= MAX_INTEREST_RATE_BPS,
    ensures
        r == effective_rate(rate as int, ctx.is_delinquent, ctx.penalty_surcharge_bps as int),
        r <= MAX_INTEREST_RATE_BPS,
{
    if ctx.is_delinquent && ctx.penalty_surcharge_bps > 0 {
        let with = if rate > u32::MAX - ctx.penalty_surcharge_bps { u32::MAX } else { rate + ctx.penalty_surcharge_bps };
        if with > MAX_INTEREST_RATE_BPS { MAX_INTEREST_RATE_BPS } else { with }
    } else {
        rate
    }
}

/// Compute the interest owed since `line.last_accrual_ts` and capitalize it
/// into `utilized_amount` and `accrued_interest`.
///
/// Nothing changes when ledger time has not advanced or nothing is
/// utilized; `last_accrual_ts` advances only when a non-zero amount accrued.
/// Fails with `Overflow` when the interest or the new balances leave `i128`.
pub fn apply_accrual(line: CreditLineData, ctx: &AccrualContext) -> (result: Result<(CreditLineData, AccrualOutcome), ContractError>)
    requires
        line.interest_rate_bps <= MAX_INTEREST_RATE_BPS,
    ensures
        match (result, accrual_spec(line, *ctx)) {
            (Ok((l, o)), Ok((sl, a, w))) => l == sl && o.accrued == a && o.waived == w
                && o.penalty_rate_bps == (if ctx.is_delinquent && ctx.penalty_surcharge_bps > 0
                    && effective_rate(line.interest_rate_bps as int, true, ctx.penalty_surcharge_bps as int) != line.interest_rate_bps
                    && ctx.now > line.last_accrual_ts && line.utilized_amount != 0 {
                        Some(effective_rate(line.interest_rate_bps as int, true, ctx.penalty_surcharge_bps as int) as u32)
                    } else { None::<u32> }),
            (Err(e), Err(se)) => e == se,
            _ => false,
        },
{
    let now = ctx.now;
    if now <= line.last_accrual_ts || line.utilized_amount == 0 {
        return Ok((line, AccrualOutcome { accrued: 0, waived: 0, penalty_rate_bps: None }));
    }
    let start = line.last_accrual_ts;
    let u = line.utilized_amount as u128;
    let rate = effective_rate_exec(line.interest_rate_bps, ctx);
    let penalty_rate_bps = if ctx.is_delinquent && ctx.penalty_surcharge_bps > 0 && rate != line.interest_rate_bps {
        Some(rate)
    } else {
        None
    };
    let mut waived: u128 = 0;
    let mut accrued_u: u128 = 0;
    let mut grace_branch = false;
    if line.status == CreditStatus::Suspended {
        if let Some(cfg) = ctx.grace {
            if cfg.grace_period_seconds > 0 {
                grace_branch = true;
                let full_waiver = cfg.waiver_mode == GraceWaiverMode::FullWaiver;
                let grace_end = if line.suspension_ts > u64::MAX - cfg.grace_period_seconds {
                    u64::MAX
                } else {
                    line.suspension_ts + cfg.grace_period_seconds
                };
                if now <= grace_end {
                    let e = now - start;
                    let full = match prorate_checked(u, rate, e) {
                        Some(v) => v,
                        None => return Err(ContractError::Overflow),
                    };
                    let actual = if full_waiver {
                        0
                    } else {
                        match prorate_checked(u, cfg.reduced_rate_bps, e) {
                            Some(v) => v,
                            None => return Err(ContractError::Overflow),
                        }
                    };
                    waived = if full > actual { full - actual } else { 0 };
                    accrued_u = actual;
                } else if start >= grace_end {
                    accrued_u = match prorate_checked(u, rate, now - start) {
                        Some(v) => v,
                        None => return Err(ContractError::Overflow),
                    };
                } else {
                    let in_w = grace_end - start;
                    let post = now - grace_end;
                    let actual_in = if full_waiver {
                        0
                    } else {
                        match prorate_checked(u, cfg.reduced_rate_bps, in_w) {
                            Some(v) => v,
                            None => return Err(ContractError::Overflow),
                        }
                    };
                    let full_in = match prorate_checked(u, rate, in_w) {
                        Some(v) => v,
                        None => return Err(ContractError::Overflow),
                    };
                    let post_amt = match prorate_checked(u, rate, post) {
                        Some(v) => v,
                        None => return Err(ContractError::Overflow),
                    };
                    waived = if full_in > actual_in { full_in - actual_in } else { 0 };
                    accrued_u = match actual_in.checked_add(post_amt) {
                        Some(v) => v,
                        None => return Err(ContractError::Overflow),
                    };
                }
            }
        }
    }
    if !grace_branch {
        accrued_u = match prorate_checked(u, rate, now - start) {
            Some(v) => v,
            None => return Err(ContractError::Overflow),
        };
    }
    if accrued_u > i128::MAX as u128 {
        return Err(ContractError::Overflow);
    }
    let accrued = accrued_u as i128;
    if accrued == 0 {
        return Ok((line, AccrualOutcome { accrued: 0, waived, penalty_rate_bps }));
    }
    let new_utilized = match line.utilized_amount.checked_add(accrued) {
        Some(v) => v,
        None => return Err(ContractError::Overflow),
    };
    let new_accrued = match line.accrued_interest.checked_add(accrued) {
        Some(v) => v,
        None => return Err(ContractError::Overflow),
    };
    let updated = CreditLineData {
        utilized_amount: new_utilized,
        accrued_interest: new_accrued,
        last_accrual_ts: now,
        ..line
    };
    Ok((updated, AccrualOutcome { accrued, waived, penalty_rate_bps }))
}

/// Accrual never decreases the balances, adds the same amount to the
/// utilized amount and to the accrued interest, and advances
/// `last_accrual_ts` (to `now`) only when a positive amount accrued, so the
/// checkpoint never moves backwards.
pub proof fn law_accrual_capitalizes(line: CreditLineData, ctx: AccrualContext)
    ensures
        accrual_spec(line, ctx) matches Ok((l, a, w)) ==> {
            &&& a >= 0
            &&& l.utilized_amount == line.utilized_amount + a
            &&& l.accrued_interest == line.accrued_interest + a
            &&& (a > 0 ==> l.last_accrual_ts == ctx.now)
            &&& (a == 0 ==> l == line)
            &&& l.last_accrual_ts >= line.last_accrual_ts
            &&& l.interest_rate_bps == line.interest_rate_bps
            &&& l.status == line.status
            &&& l.credit_limit == line.credit_limit
            &&& l.borrower == line.borrower
        },
{
    if !(ctx.now <= line.last_accrual_ts || line.utilized_amount == 0) {
        let u = principal_of(line.utilized_amount);
        let r = effective_rate(line.interest_rate_bps as int, ctx.is_delinquent, ctx.penalty_surcharge_bps as int);
        let start = line.last_accrual_ts as int;
        let now = ctx.now as int;
        assert forall|rr: int, t: int| rr >= 0 && t >= 0 implies #[trigger] p_floor(u, rr, t) >= 0 by {
            assert(u * rr * t >= 0) by (nonlinear_arith) requires u >= 0, rr >= 0, t >= 0;
            vstd::arithmetic::div_mod::lemma_div_pos_is_pos(u * rr * t, crate::math_utils::BPS_YEAR_DENOM as int);
        }
        if line.status == CreditStatus::Suspended && ctx.grace is Some && ctx.grace->0.grace_period_seconds > 0 {
            let cfg = ctx.grace->0;
            let grace_end = sat_add_u64(line.suspension_ts as int, cfg.grace_period_seconds as int);
            assert(p_floor(u, cfg.reduced_rate_bps as int, now - start) >= 0);
            assert(p_floor(u, r, now - start) >= 0);
            if grace_end < now && start < grace_end {
                assert(p_floor(u, cfg.reduced_rate_bps as int, grace_end - start) >= 0);
                assert(p_floor(u, r, now - grace_end) >= 0);
            }
        } else {
            assert(p_floor(u, r, now - start) >= 0);
        }
    }
}

/// Accrued interest never exceeds the utilized amount: a line whose
/// accrued interest lies between 0 and its utilization keeps it there
/// after accrual, the utilization never decreases, and both grow by the
/// same amount.
pub proof fn law_accrued_within_utilized(line: CreditLineData, ctx: AccrualContext)
    requires
        0 <= line.accrued_interest <= line.utilized_amount,
    ensures
        accrual_spec(line, ctx) matches Ok((l, _, _)) ==> {
            &&& 0 <= l.accrued_interest <= l.utilized_amount
            &&& l.utilized_amount >= line.utilized_amount
            &&& l.accrued_interest - line.accrued_interest == l.utilized_amount - line.utilized_amount
        },
{
    law_accrual_capitalizes(line, ctx);
}

/// The rate a line accrues at: for a delinquent line with a positive
/// penalty surcharge, the base rate plus the surcharge, capped at
/// 10 000 bps (so never below the base rate when the base rate is within
/// the cap); otherwise the base rate itself.
pub proof fn law_accrual_rate(rate: u32, is_delinquent: bool, surcharge: u32)
    ensures
        effective_rate(rate as int, is_delinquent, surcharge as int)
            == (if is_delinquent && surcharge > 0 {
                if rate + surcharge > 10_000 { 10_000 } else { rate + surcharge }
            } else {
                rate as int
            }),
        rate <= 10_000 ==> effective_rate(rate as int, is_delinquent, surcharge as int) >= rate,
{
}

/// Outside a grace window, the interest a line accrues is simple interest
/// on its (positive) utilization at the accrual rate over the elapsed
/// time, rounded down: `floor(u × R × Δt / (10 000 × 31 557 600))`, where
/// `R` is the base rate plus the penalty surcharge (capped at 10 000 bps)
/// for a delinquent line and the base rate otherwise. The interest is added
/// to both the utilization and the accrued interest.
pub proof fn law_accrual_simple_interest(line: CreditLineData, ctx: AccrualContext)
    requires
        line.utilized_amount > 0,
        ctx.now > line.last_accrual_ts,
        !(line.status == CreditStatus::Suspended && ctx.grace is Some),
    ensures
        ({
            let u = line.utilized_amount as int;
            let base = line.interest_rate_bps as int;
            let s = ctx.penalty_surcharge_bps as int;
            let r = if ctx.is_delinquent && s > 0 { if base + s > 10_000 { 10_000 } else { base + s } } else { base };
            let t = ctx.now - line.last_accrual_ts;
            let interest = u * r * t / 315_576_000_000;
            &&& accrual_spec(line, ctx) matches Ok((l, a, _)) ==> a == interest
                && l.utilized_amount == u + interest && l.accrued_interest == line.accrued_interest + interest
            &&& (u * r * t <= u128::MAX && u + interest <= i128::MAX && line.accrued_interest + interest <= i128::MAX)
                ==> accrual_spec(line, ctx) is Ok
        }),
{
    let u = line.utilized_amount as int;
    assert(principal_of(line.utilized_amount) == u);
    let r = effective_rate(line.interest_rate_bps as int, ctx.is_delinquent, ctx.penalty_surcharge_bps as int);
    let t = ctx.now - line.last_accrual_ts;
    assert(u * r * t >= 0) by (nonlinear_arith) requires u >= 0, r >= 0, t >= 0;
    vstd::arithmetic::div_mod::lemma_div_pos_is_pos(u * r * t, 315_576_000_000);
}

/// Accrual of a suspended line under a grace policy (positive grace
/// period), with `D = 10 000 × 31 557 600`, the window ending at
/// `suspension_ts + grace_period_seconds` (saturating) and `R` the rate of
/// [`law_accrual_rate`]: inside the window nothing accrues under a full
/// waiver and interest at the reduced rate accrues otherwise, the rest of
/// the full-rate interest being reported as waived; after the window the
/// full rate applies; a period straddling the window's end accrues both
/// parts, each rounded down.
pub proof fn law_accrual_grace(line: CreditLineData, ctx: AccrualContext)
    requires
        line.utilized_amount > 0,
        ctx.now > line.last_accrual_ts,
        line.status == CreditStatus::Suspended,
        ctx.grace is Some,
        ctx.grace->0.grace_period_seconds > 0,
    ensures
        ({
            let cfg = ctx.grace->0;
            let u = line.utilized_amount as int;
            let base = line.interest_rate_bps as int;
            let s = ctx.penalty_surcharge_bps as int;
            let r = if ctx.is_delinquent && s > 0 { if base + s > 10_000 { 10_000 } else { base + s } } else { base };
            let red = cfg.reduced_rate_bps as int;
            let full_waiver = cfg.waiver_mode == GraceWaiverMode::FullWaiver;
            let start = line.last_accrual_ts as int;
            let now = ctx.now as int;
            let end = if line.suspension_ts + cfg.grace_period_seconds > u64::MAX { u64::MAX as int }
                else { line.suspension_ts + cfg.grace_period_seconds };
            let d = 315_576_000_000int;
            accrual_spec(line, ctx) matches Ok((_, a, w)) ==> {
                &&& (now <= end && full_waiver) ==> a == 0 && w == u * r * (now - start) / d
                &&& (now <= end && !full_waiver) ==> a == u * red * (now - start) / d
                    && w == (if u * r * (now - start) / d > a { u * r * (now - start) / d - a } else { 0 })
                &&& (start >= end) ==> a == u * r * (now - start) / d && w == 0
                &&& (start < end < now) ==> a == (if full_waiver { 0 } else { u * red * (end - start) / d })
                    + u * r * (now - end) / d
            }
        }),
{
    assert(principal_of(line.utilized_amount) == line.utilized_amount as int);
}

} // verus!
