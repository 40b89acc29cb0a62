//! Rate-formula primitives and the validation rules of risk-parameter
//! updates.

use vstd::prelude::*;
use crate::types::RateFormulaConfig;

verus! {

/// Maximum interest rate in basis points (100 %).
pub const MAX_INTEREST_RATE_BPS: u32 = 10_000;

/// Maximum risk score on the normalized 0–100 scale.
pub const MAX_RISK_SCORE: u32 = 100;

/// `x + y` saturating at `u32::MAX`.
pub open spec fn sat_add_u32(x: int, y: int) -> int {
    if x + y > u32::MAX as int { u32::MAX as int } else { x + y }
}

/// `x * y` saturating at `u32::MAX`.
pub open spec fn sat_mul_u32(x: int, y: int) -> int {
    if x * y > u32::MAX as int { u32::MAX as int } else { x * y }
}

/// `min(a, b)` over integers.
pub open spec fn min_int(a: int, b: int) -> int {
    if a <= b { a } else { b }
}

/// The rate the formula assigns to `risk_score`: `base + score × slope`
/// (saturating) raised to `min_rate`, then capped at
/// `min(max_rate, 10_000)`. For a well-formed band this is the clamp into
/// `[min_rate, min(max_rate, 10_000)]`; for a misconfigured one the cap
/// wins.
pub open spec fn rate_from_score_spec(cfg: RateFormulaConfig, risk_score: int) -> int {
    let raw = sat_add_u32(cfg.base_rate_bps as int, sat_mul_u32(risk_score, cfg.slope_bps_per_score as int));
    let upper = min_int(cfg.max_rate_bps as int, MAX_INTEREST_RATE_BPS as int);
    let floored = if raw < cfg.min_rate_bps as int { cfg.min_rate_bps as int } else { raw };
    min_int(floored, upper)
}

fn saturating_add_u32(x: u32, y: u32) -> (r: u32)
    ensures
        r == sat_add_u32(x as int, y as int),
{
    if x > u32::MAX - y { u32::MAX } else { x + y }
}

fn saturating_mul_u32(x: u32, y: u32) -> (r: u32)
    ensures
        r == sat_mul_u32(x as int, y as int),
{
    match x.checked_mul(y) {
        Some(p) => p,
        None => u32::MAX,
    }
}

/// Compute a risk-score-based interest rate with the piecewise-linear
/// formula `clamp(base + score × slope, min_rate, min(max_rate, 10_000))`.
/// Arithmetic saturates, and the result never exceeds 10 000 bps, even for
/// a misconfigured band.
pub fn compute_rate_from_score(cfg: &RateFormulaConfig, risk_score: u32) -> (rate: u32)
    ensures
        rate == rate_from_score_spec(*cfg, risk_score as int),
        rate <= MAX_INTEREST_RATE_BPS,
{
    let raw = saturating_add_u32(cfg.base_rate_bps, saturating_mul_u32(risk_score, cfg.slope_bps_per_score));
    let upper = if cfg.max_rate_bps < MAX_INTEREST_RATE_BPS { cfg.max_rate_bps } else { MAX_INTEREST_RATE_BPS };
    let floored = if raw < cfg.min_rate_bps { cfg.min_rate_bps } else { raw };
    if floored > upper { upper } else { floored }
}

/// A formula-derived rate never exceeds the configured maximum nor the
/// protocol-wide maximum of 10 000 bps, and for a well-formed band it is at
/// least the configured minimum.
pub proof fn law_rate_from_score_bounded(cfg: RateFormulaConfig, risk_score: u32)
    ensures
        cfg.min_rate_bps <= min_int(cfg.max_rate_bps as int, MAX_INTEREST_RATE_BPS as int)
            ==> cfg.min_rate_bps <= rate_from_score_spec(cfg, risk_score as int),
        rate_from_score_spec(cfg, risk_score as int) <= cfg.max_rate_bps,
        rate_from_score_spec(cfg, risk_score as int) <= MAX_INTEREST_RATE_BPS,
{
}

/// A higher risk score never yields a lower formula rate.
pub proof fn law_rate_from_score_monotone(cfg: RateFormulaConfig, s1: u32, s2: u32)
    requires
        s1 <= s2,
    ensures
        rate_from_score_spec(cfg, s1 as int) <= rate_from_score_spec(cfg, s2 as int),
{
    assert(s1 * cfg.slope_bps_per_score <= s2 * cfg.slope_bps_per_score) by (nonlinear_arith)
        requires s1 <= s2, cfg.slope_bps_per_score >= 0;
}

} // verus!
