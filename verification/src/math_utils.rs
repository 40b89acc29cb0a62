//! Deterministic, integer-only fixed-point helpers used by interest accrual,
//! fee skimming and oracle deviation checks.
//!
//! Rates are in basis points (`1 bps = 1 / 10_000`); time is in ledger
//! seconds and one Julian year is `31_557_600` seconds.

use vstd::prelude::*;
use vstd::arithmetic::div_mod::{
    lemma_div_is_ordered, lemma_div_is_ordered_by_denominator, lemma_div_by_multiple, lemma_fundamental_div_mod,
};
use vstd::arithmetic::mul::{lemma_mul_inequality, lemma_mul_is_commutative};

verus! {

/// Scaling factor used for fixed-point intermediate arithmetic (10^18).
pub const SCALE: u128 = 1_000_000_000_000_000_000u128;

/// Number of basis points in 100 %.
pub const BPS_DENOMINATOR: u128 = 10_000;

/// Seconds in one Julian year (365.25 days × 86 400 s/day).
pub const SECONDS_PER_YEAR: u128 = 31_557_600;

/// `BPS_DENOMINATOR × SECONDS_PER_YEAR`.
pub const BPS_YEAR_DENOM: u128 = 315_576_000_000;

/// Rounding direction for fixed-point division.
#[derive(Clone, Copy, Debug, PartialEq, Eq, Structural)]
pub enum Rounding {
    /// Truncate the fractional part.
    Floor,
    /// Add one if there is any non-zero remainder.
    Ceil,
}

/// `p / d` rounded in the given direction (for `p >= 0`, `d > 0`).
pub open spec fn rounded_div(p: int, d: int, rounding: Rounding) -> int {
    match rounding {
        Rounding::Floor => p / d,
        Rounding::Ceil => if p % d == 0 { p / d } else { p / d + 1 },
    }
}

/// The interest owed on `principal` over `time_delta` seconds at `rate_bps`
/// per year, before rounding is applied by [`rounded_div`].
pub open spec fn prorate_spec(principal: int, rate_bps: int, time_delta: int, rounding: Rounding) -> int {
    rounded_div(principal * rate_bps * time_delta, BPS_YEAR_DENOM as int, rounding)
}

/// `|new_price - last_price| * 10_000 / last_price`, capped at `u32::MAX`.
pub open spec fn deviation_spec(new_price: int, last_price: int) -> int {
    let diff = if new_price >= last_price { new_price - last_price } else { last_price - new_price };
    let d = diff * 10_000 / last_price;
    if d > u32::MAX as int { u32::MAX as int } else { d }
}

/// A rounded quotient of a non-negative dividend never exceeds the dividend
/// when the divisor is positive, and the ceiling exceeds the floor by at
/// most one.
pub proof fn lemma_rounded_div_bounds(p: int, d: int)
    requires
        p >= 0,
        d > 0,
    ensures
        0 <= rounded_div(p, d, Rounding::Floor) <= rounded_div(p, d, Rounding::Ceil),
        rounded_div(p, d, Rounding::Ceil) <= rounded_div(p, d, Rounding::Floor) + 1,
        rounded_div(p, d, Rounding::Ceil) <= p,
        d == 1 ==> rounded_div(p, d, Rounding::Floor) == p,
{
    lemma_fundamental_div_mod(p, d);
    assert(p / d >= 0) by {
        lemma_div_is_ordered(0, p, d);
    }
    if d == 1 {
        assert(p / 1 == p);
    } else {
        lemma_div_is_ordered_by_denominator(p, 1, d);
        if p % d != 0 {
            // p >= d * (p / d) + 1 and d >= 2, so p / d + 1 <= p
            assert(d * (p / d) >= p / d) by {
                lemma_mul_inequality(1, d, p / d);
                lemma_mul_is_commutative(d, p / d);
            }
        }
    }
}

/// Rounded division is monotone in the dividend.
pub proof fn lemma_rounded_div_monotone(p1: int, p2: int, d: int, rounding: Rounding)
    requires
        0 <= p1 <= p2,
        d > 0,
    ensures
        rounded_div(p1, d, rounding) <= rounded_div(p2, d, rounding),
{
    lemma_div_is_ordered(p1, p2, d);
    lemma_fundamental_div_mod(p1, d);
    lemma_fundamental_div_mod(p2, d);
    if rounding == Rounding::Ceil && p1 % d != 0 && p2 % d == 0 {
        // p1 < d * (p1/d + 1) <= p2 when p1 / d < p2 / d
        if p1 / d == p2 / d {
            assert(false);
        }
    }
}

/// Checked `a * numerator / denominator` with explicit rounding; `None` when
/// the denominator is zero or the product overflows `u128`.
pub fn safe_mul_div(a: u128, numerator: u128, denominator: u128, rounding: Rounding) -> (result: Option<u128>)
    ensures
        result is Some <==> (denominator != 0 && a * numerator <= u128::MAX),
        result matches Some(r) ==> r == rounded_div(a * numerator, denominator as int, rounding),
{
    if denominator == 0 {
        return None;
    }
    let product = match a.checked_mul(numerator) {
        Some(p) => p,
        None => return None,
    };
    proof {
        lemma_rounded_div_bounds(product as int, denominator as int);
    }
    let quotient = product / denominator;
    match rounding {
        Rounding::Floor => Some(quotient),
        Rounding::Ceil => {
            if product % denominator != 0 {
                Some(quotient + 1)
            } else {
                Some(quotient)
            }
        },
    }
}

/// `a * numerator / denominator` with explicit rounding.
///
/// The caller guarantees a non-zero denominator and a product that fits in
/// `u128`; use [`safe_mul_div`] when either may fail.
pub fn mul_div(a: u128, numerator: u128, denominator: u128, rounding: Rounding) -> (result: u128)
    requires
        denominator != 0,
        a * numerator <= u128::MAX,
    ensures
        result == rounded_div(a * numerator, denominator as int, rounding),
{
    let product = a * numerator;
    proof {
        lemma_rounded_div_bounds(product as int, denominator as int);
    }
    let quotient = product / denominator;
    match rounding {
        Rounding::Floor => quotient,
        Rounding::Ceil => {
            if product % denominator != 0 {
                quotient + 1
            } else {
                quotient
            }
        },
    }
}

/// Scale `amount` up by [`SCALE`] (multiply by 10^18).
pub fn scale_up(amount: u128) -> (result: u128)
    requires
        amount * SCALE <= u128::MAX,
    ensures
        result == amount * SCALE,
{
    amount * SCALE
}

/// Scale `amount` down by [`SCALE`] (divide by 10^18), applying `rounding`.
pub fn scale_down(amount: u128, rounding: Rounding) -> (result: u128)
    ensures
        result == rounded_div(amount as int, SCALE as int, rounding),
{
    proof {
        lemma_rounded_div_bounds(amount as int, SCALE as int);
    }
    let quotient = amount / SCALE;
    match rounding {
        Rounding::Floor => quotient,
        Rounding::Ceil => {
            if amount % SCALE != 0 {
                quotient + 1
            } else {
                quotient
            }
        },
    }
}

/// Apply a basis-point rate to an amount: `amount × rate_bps / 10_000`.
pub fn apply_bps(amount: u128, rate_bps: u32, rounding: Rounding) -> (result: u128)
    requires
        amount * rate_bps <= u128::MAX,
    ensures
        result == rounded_div(amount * rate_bps, BPS_DENOMINATOR as int, rounding),
{
    mul_div(amount, rate_bps as u128, BPS_DENOMINATOR, rounding)
}

/// Interest accrued on `principal` over `time_delta` seconds at an annual
/// rate of `rate_bps`: `(principal × rate_bps × time_delta) / (10_000 × 31_557_600)`.
pub fn prorate_interest(principal: u128, rate_bps: u32, time_delta: u64, rounding: Rounding) -> (result: u128)
    requires
        principal == 0 || rate_bps == 0 || time_delta == 0
            || principal * rate_bps * time_delta <= u128::MAX,
    ensures
        result == prorate_spec(principal as int, rate_bps as int, time_delta as int, rounding),
{
    if principal == 0 || rate_bps == 0 || time_delta == 0 {
        proof {
            assert(principal * rate_bps * time_delta == 0) by (nonlinear_arith)
                requires principal == 0 || rate_bps == 0 || time_delta == 0;
        }
        return 0;
    }
    proof {
        assert(principal * rate_bps <= principal * rate_bps * time_delta) by (nonlinear_arith)
            requires time_delta >= 1, principal >= 0, rate_bps >= 0;
    }
    let step1 = principal * (rate_bps as u128);
    let step2 = step1 * (time_delta as u128);
    proof {
        lemma_rounded_div_bounds(step2 as int, BPS_YEAR_DENOM as int);
    }
    let quotient = step2 / BPS_YEAR_DENOM;
    match rounding {
        Rounding::Floor => quotient,
        Rounding::Ceil => {
            if step2 % BPS_YEAR_DENOM != 0 {
                quotient + 1
            } else {
                quotient
            }
        },
    }
}

/// `r × m / d` rounded down, for `r < d`, computed by `m` modular
/// additions so that nothing overflows.
fn mul_small_div(r: u128, m: u32, d: u128) -> (q: u128)
    requires
        r < d,
    ensures
        q == (r * m) / (d as int),
        q <= m,
{
    let mut acc: u128 = 0;
    let mut q: u128 = 0;
    let mut i: u32 = 0;
    while i < m
        invariant
            r < d,
            i <= m,
            acc < d,
            q <= i,
            acc + q * d == r * i,
        decreases m - i,
    {
        let ghost (acc0, q0, i0) = (acc, q, i);
        if acc >= d - r {
            acc = acc - (d - r);
            q = q + 1;
        } else {
            acc = acc + r;
        }
        i = i + 1;
        proof {
            assert(r * i == r * i0 + r) by (nonlinear_arith)
                requires i == i0 + 1;
            assert(q * d == q0 * d + d || q == q0) by (nonlinear_arith)
                requires q == q0 + 1 || q == q0;
        }
    }
    proof {
        assert(acc + q * d == r * m);
        vstd::arithmetic::div_mod::lemma_fundamental_div_mod_converse(r * m, d as int, q as int, acc as int);
    }
    q
}

/// Absolute deviation between `new_price` and `last_price` in basis points,
/// saturating at `u32::MAX` so that an absurd price still trips the
/// breaker; `None` only when `last_price` is not positive.
pub fn compute_deviation_bps(new_price: i128, last_price: i128) -> (result: Option<u32>)
    ensures
        last_price <= 0 ==> result is None,
        last_price > 0 ==> result == Some(deviation_spec(new_price as int, last_price as int) as u32),
{
    if last_price <= 0 {
        return None;
    }
    let diff: u128 = if new_price >= last_price {
        (new_price - last_price) as u128
    } else if new_price >= 0 {
        (last_price - new_price) as u128
    } else {
        last_price as u128 + ((0 - (new_price + 1)) as u128) + 1
    };
    assert(diff == abs_int(new_price - last_price));
    let l: u128 = last_price as u128;
    let q: u128 = diff / l;
    let r: u128 = diff % l;
    proof {
        vstd::arithmetic::div_mod::lemma_fundamental_div_mod(diff as int, l as int);
        lemma_deviation_split(diff as int, l as int, q as int, r as int);
    }
    if q >= 429_497 {
        return Some(u32::MAX);
    }
    let frac = mul_small_div(r, 10_000, l);
    let deviation: u128 = q * 10_000 + frac;
    if deviation > u32::MAX as u128 {
        Some(u32::MAX)
    } else {
        Some(deviation as u32)
    }
}

proof fn lemma_deviation_split(diff: int, l: int, q: int, r: int)
    requires
        l > 0,
        0 <= r < l,
        q >= 0,
        diff == q * l + r,
    ensures
        diff * 10_000 / l == q * 10_000 + (r * 10_000) / l,
        diff * 10_000 / l >= q * 10_000,
{
    assert(diff * 10_000 == (q * 10_000) * l + r * 10_000) by (nonlinear_arith)
        requires diff == q * l + r;
    vstd::arithmetic::div_mod::lemma_fundamental_div_mod(r * 10_000, l);
    let a = (r * 10_000) / l;
    let b = (r * 10_000) % l;
    assert(diff * 10_000 == (q * 10_000 + a) * l + b) by (nonlinear_arith)
        requires diff * 10_000 == (q * 10_000) * l + r * 10_000, r * 10_000 == l * a + b;
    vstd::arithmetic::div_mod::lemma_fundamental_div_mod_converse(diff * 10_000, l, q * 10_000 + a, b);
    assert(a >= 0) by (nonlinear_arith)
        requires r >= 0, l > 0, a == (r * 10_000) / l;
}

/// The absolute value of an integer.
pub open spec fn abs_int(x: int) -> int {
    if x >= 0 { x } else { -x }
}

// ── Laws ─────────────────────────────────────────────────────────────────────

/// Floor rounding never exceeds ceiling rounding, and the two differ by at
/// most one, for the checked multiply-divide.
pub proof fn law_mul_div_floor_ceil(a: u128, numerator: u128, denominator: u128)
    requires
        denominator != 0,
        a * numerator <= u128::MAX,
    ensures
        rounded_div(a * numerator, denominator as int, Rounding::Floor)
            <= rounded_div(a * numerator, denominator as int, Rounding::Ceil)
            <= rounded_div(a * numerator, denominator as int, Rounding::Floor) + 1,
        rounded_div(a * numerator, denominator as int, Rounding::Floor) == (a * numerator) / (denominator as int),
{
    lemma_rounded_div_bounds(a * numerator, denominator as int);
}

/// Interest rounded down never exceeds interest rounded up, which exceeds it
/// by at most one token unit; any zero input yields zero interest.
pub proof fn law_prorate_floor_ceil(principal: u128, rate_bps: u32, time_delta: u64)
    ensures
        prorate_spec(principal as int, rate_bps as int, time_delta as int, Rounding::Floor)
            <= prorate_spec(principal as int, rate_bps as int, time_delta as int, Rounding::Ceil)
            <= prorate_spec(principal as int, rate_bps as int, time_delta as int, Rounding::Floor) + 1,
        principal == 0 || rate_bps == 0 || time_delta == 0 ==> (
            prorate_spec(principal as int, rate_bps as int, time_delta as int, Rounding::Floor) == 0
            && prorate_spec(principal as int, rate_bps as int, time_delta as int, Rounding::Ceil) == 0),
{
    assert(principal * rate_bps * time_delta >= 0) by (nonlinear_arith)
        requires principal >= 0, rate_bps >= 0, time_delta >= 0;
    lemma_rounded_div_bounds(principal * rate_bps * time_delta, BPS_YEAR_DENOM as int);
    if principal == 0 || rate_bps == 0 || time_delta == 0 {
        assert(principal * rate_bps * time_delta == 0) by (nonlinear_arith)
            requires principal == 0 || rate_bps == 0 || time_delta == 0;
    }
}

/// Interest is monotone in principal, in rate and in elapsed time, for
/// either rounding direction.
pub proof fn law_prorate_monotone(
    p1: u128, p2: u128, r1: u32, r2: u32, t1: u64, t2: u64, rounding: Rounding,
)
    requires
        p1 <= p2,
        r1 <= r2,
        t1 <= t2,
    ensures
        prorate_spec(p1 as int, r1 as int, t1 as int, rounding)
            <= prorate_spec(p2 as int, r2 as int, t2 as int, rounding),
{
    assert(0 <= p1 * r1 * t1 <= p2 * r2 * t2) by (nonlinear_arith)
        requires 0 <= p1 <= p2, 0 <= r1 <= r2, 0 <= t1 <= t2;
    lemma_rounded_div_monotone(p1 * r1 * t1, p2 * r2 * t2, BPS_YEAR_DENOM as int, rounding);
}

/// Scaling up and then down returns the original amount, in either rounding
/// direction.
pub proof fn law_scale_roundtrip(amount: u128, rounding: Rounding)
    requires
        amount * SCALE <= u128::MAX,
    ensures
        rounded_div(amount * SCALE, SCALE as int, rounding) == amount,
{
    lemma_div_by_multiple(amount as int, SCALE as int);
    vstd::arithmetic::div_mod::lemma_mod_multiples_basic(amount as int, SCALE as int);
}

/// A basis-point share of at most 100 % never exceeds the amount; 0 bps
/// yields zero and 10 000 bps yields the whole amount.
pub proof fn law_apply_bps_bounds(amount: u128, rate_bps: u32, rounding: Rounding)
    requires
        rate_bps <= 10_000,
    ensures
        amount * rate_bps <= u128::MAX ==> rounded_div(amount * rate_bps, BPS_DENOMINATOR as int, rounding) <= amount,
        rate_bps == 0 ==> rounded_div(amount * rate_bps, BPS_DENOMINATOR as int, rounding) == 0,
        rate_bps == 10_000 ==> rounded_div(amount * rate_bps, BPS_DENOMINATOR as int, rounding) == amount,
{
    assert(0 <= amount * rate_bps <= amount * 10_000) by (nonlinear_arith)
        requires rate_bps <= 10_000, amount >= 0, rate_bps >= 0;
    lemma_rounded_div_monotone(amount * rate_bps, amount * 10_000, 10_000, rounding);
    lemma_div_by_multiple(amount as int, 10_000);
    vstd::arithmetic::div_mod::lemma_mod_multiples_basic(amount as int, 10_000);
    if rate_bps == 0 {
        assert(amount * rate_bps == 0);
    }
}

/// A proportional share `collateral × part / whole` (rounded down) never
/// exceeds the collateral when `part <= whole`, and is the whole collateral
/// when `part == whole`.
pub proof fn law_proportional_share(collateral: u128, part: u128, whole: u128)
    requires
        0 < whole,
        part <= whole,
    ensures
        rounded_div(collateral * part, whole as int, Rounding::Floor) <= collateral,
        part == whole ==> rounded_div(collateral * part, whole as int, Rounding::Floor) == collateral,
        part == 0 ==> rounded_div(collateral * part, whole as int, Rounding::Floor) == 0,
{
    assert(0 <= collateral * part <= collateral * whole) by (nonlinear_arith)
        requires part <= whole, collateral >= 0, part >= 0;
    lemma_div_is_ordered(collateral * part, collateral * whole, whole as int);
    lemma_div_by_multiple(collateral as int, whole as int);
    if part == 0 {
        assert(collateral * part == 0);
    }
}

} // verus!
