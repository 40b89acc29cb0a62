//! Read-only risk queries: the collateral-aware health factor and
//! delinquency against the repayment schedule.

use vstd::prelude::*;
use crate::types::{CreditLineData, CreditStatus, GracePeriodConfig, RepaymentSchedule};

verus! {

/// Default minimum collateral ratio when none is configured (150 %).
pub const DEFAULT_MIN_COLLATERAL_RATIO_BPS: u32 = 15_000;

/// The health factor in bps: `collateral × 10^8 / (utilized × min_ratio)`,
/// with each product saturating at `u128::MAX` and the quotient saturating
/// at `u32::MAX`; `u32::MAX` when nothing is owed or when the minimum
/// ratio is zero (no collateral is required, so the position cannot fall
/// short of it).
pub open spec fn health_factor_spec(utilized: int, collateral: int, min_ratio_bps: int) -> int {
    if utilized <= 0 || min_ratio_bps <= 0 {
        u32::MAX as int
    } else {
        let c = if collateral > 0 { collateral } else { 0 };
        let num = if c * 100_000_000 > u128::MAX { u128::MAX as int } else { c * 100_000_000 };
        let den = if utilized * min_ratio_bps > u128::MAX { u128::MAX as int } else { utilized * min_ratio_bps };
        let h = num / den;
        if h > u32::MAX as int { u32::MAX as int } else { h }
    }
}

/// The ratio applied when computing health: the configured one, else 150 %.
pub open spec fn ratio_or_default(min_ratio_bps: Option<u32>) -> int {
    match min_ratio_bps {
        Some(r) => r as int,
        None => DEFAULT_MIN_COLLATERAL_RATIO_BPS as int,
    }
}

/// Compute the collateral-aware health factor of a position.
///
/// `utilized` is `None` when the borrower has no credit line.
pub fn health_factor(utilized: Option<i128>, collateral: i128, min_ratio_bps: Option<u32>) -> (h: u32)
    ensures
        h == match utilized {
            None => u32::MAX as int,
            Some(u) => health_factor_spec(u as int, collateral as int, ratio_or_default(min_ratio_bps)),
        },
{
    let u = match utilized {
        Some(u) => u,
        None => return u32::MAX,
    };
    if u <= 0 {
        return u32::MAX;
    }
    let ratio: u32 = match min_ratio_bps {
        Some(r) => r,
        None => DEFAULT_MIN_COLLATERAL_RATIO_BPS,
    };
    if ratio == 0 {
        return u32::MAX;
    }
    let c: u128 = if collateral > 0 { collateral as u128 } else { 0 };
    let num = match c.checked_mul(100_000_000) {
        Some(n) => n,
        None => u128::MAX,
    };
    let den = match (u as u128).checked_mul(ratio as u128) {
        Some(d) => d,
        None => u128::MAX,
    };
    proof {
        assert((u as u128) * (ratio as u128) >= 1) by (nonlinear_arith)
            requires u >= 1, ratio >= 1;
    }
    let h = num / den;
    if h > u32::MAX as u128 { u32::MAX } else { h as u32 }
}

/// The grace window used for delinquency: the per-borrower grace when
/// positive, otherwise the global grace period, otherwise zero.
pub open spec fn delinquency_grace(per_borrower_grace: u64, grace: Option<GracePeriodConfig>) -> int {
    if per_borrower_grace > 0 {
        per_borrower_grace as int
    } else {
        match grace {
            Some(cfg) => cfg.grace_period_seconds as int,
            None => 0,
        }
    }
}

/// Whether a borrower has missed an installment past the grace window.
pub open spec fn is_delinquent_spec(
    line: Option<CreditLineData>,
    schedule: Option<RepaymentSchedule>,
    per_borrower_grace: u64,
    grace: Option<GracePeriodConfig>,
    now: u64,
) -> bool {
    match (line, schedule) {
        (Some(l), Some(s)) =>
            l.status != CreditStatus::Closed && l.utilized_amount > 0 && {
                let after = s.next_due_ts as int + delinquency_grace(per_borrower_grace, grace);
                let after_sat = if after > u64::MAX as int { u64::MAX as int } else { after };
                now as int > after_sat
            },
        _ => false,
    }
}

/// `true` when the borrower has an open, owing line with a schedule whose
/// next due date plus the grace window (saturating) lies before `now`.
pub fn is_delinquent(
    line: Option<CreditLineData>,
    schedule: Option<RepaymentSchedule>,
    per_borrower_grace: u64,
    grace: Option<GracePeriodConfig>,
    now: u64,
) -> (d: bool)
    ensures
        d == is_delinquent_spec(line, schedule, per_borrower_grace, grace, now),
{
    let l = match line {
        Some(l) => l,
        None => return false,
    };
    if l.status == CreditStatus::Closed || l.utilized_amount <= 0 {
        return false;
    }
    let s = match schedule {
        Some(s) => s,
        None => return false,
    };
    let grace_seconds: u64 = if per_borrower_grace > 0 {
        per_borrower_grace
    } else {
        match grace {
            Some(cfg) => cfg.grace_period_seconds,
            None => 0,
        }
    };
    let delinquent_after = if s.next_due_ts > u64::MAX - grace_seconds { u64::MAX } else { s.next_due_ts + grace_seconds };
    now > delinquent_after
}

/// A borrower is delinquent exactly when their line is open, owes a
/// positive amount and has a schedule whose next due date, plus the grace
/// window, lies before `now` (the sum saturating at `u64::MAX`). The grace
/// window is the per-borrower grace when positive, else the global grace
/// period, else nothing. Without a line or a schedule nobody is delinquent.
pub proof fn law_delinquency_window(line: Option<CreditLineData>, schedule: Option<RepaymentSchedule>,
    per_borrower_grace: u64, grace: Option<GracePeriodConfig>, now: u64)
    ensures
        is_delinquent_spec(line, schedule, per_borrower_grace, grace, now) == (match (line, schedule) {
            (Some(l), Some(s)) => {
                let g: int = if per_borrower_grace > 0 {
                    per_borrower_grace as int
                } else if grace is Some {
                    grace->0.grace_period_seconds as int
                } else {
                    0
                };
                let end: int = if s.next_due_ts + g > u64::MAX { u64::MAX as int } else { s.next_due_ts + g };
                l.status != CreditStatus::Closed && l.utilized_amount > 0 && now > end
            },
            _ => false,
        }),
{
}

/// With debt and a positive minimum ratio (and products within `u128`),
/// the health factor is `collateral × 10^8 / (utilized × ratio)` rounded
/// down, saturating only at `u32::MAX`; it never decreases as collateral
/// grows.
pub proof fn law_health_factor_formula(utilized: int, collateral: int, collateral2: int, ratio: int)
    requires
        utilized > 0,
        ratio > 0,
        0 <= collateral <= collateral2,
        collateral2 * 100_000_000 <= u128::MAX,
        utilized * ratio <= u128::MAX,
    ensures
        health_factor_spec(utilized, collateral, ratio) == (if collateral * 100_000_000 / (utilized * ratio) > u32::MAX {
            u32::MAX as int
        } else {
            collateral * 100_000_000 / (utilized * ratio)
        }),
        health_factor_spec(utilized, collateral, ratio) <= health_factor_spec(utilized, collateral2, ratio),
{
    assert(utilized * ratio > 0) by (nonlinear_arith) requires utilized > 0, ratio > 0;
    assert(collateral * 100_000_000 <= collateral2 * 100_000_000) by (nonlinear_arith)
        requires collateral <= collateral2;
    vstd::arithmetic::div_mod::lemma_div_is_ordered(collateral * 100_000_000, collateral2 * 100_000_000, utilized * ratio);
}

} // verus!
