use creditra_credit::math_utils::{
    apply_bps, compute_deviation_bps, mul_div, prorate_interest, safe_mul_div, scale_down, scale_up, Rounding,
    BPS_YEAR_DENOM, SCALE, SECONDS_PER_YEAR,
};

// ── safe_mul_div ─────────────────────────────────────────────────────────

#[test]
fn safe_mul_div_basic_floor_and_ceil() {
    assert_eq!(safe_mul_div(1_000, 300, 10_000, Rounding::Floor), Some(30));
    assert_eq!(safe_mul_div(1_001, 3, 10, Rounding::Floor), Some(300));
    assert_eq!(safe_mul_div(1_001, 3, 10, Rounding::Ceil), Some(301));
}

#[test]
fn safe_mul_div_zero_denominator_returns_none() {
    assert_eq!(safe_mul_div(100, 1, 0, Rounding::Floor), None);
    assert_eq!(safe_mul_div(100, 1, 0, Rounding::Ceil), None);
}

#[test]
fn safe_mul_div_product_overflow_returns_none() {
    assert_eq!(safe_mul_div(u128::MAX, 2, 1, Rounding::Floor), None);
    assert_eq!(safe_mul_div(u128::MAX, 2, 1, Rounding::Ceil), None);
}

#[test]
fn safe_mul_div_ceil_exact_and_overflow() {
    // u128::MAX * 1 / 1 = u128::MAX (exact, no remainder, no overflow)
    assert_eq!(safe_mul_div(u128::MAX, 1, 1, Rounding::Ceil), Some(u128::MAX));
}

#[test]
fn safe_mul_div_zero_inputs() {
    assert_eq!(safe_mul_div(0, 300, 10_000, Rounding::Floor), Some(0));
    assert_eq!(safe_mul_div(1_000, 0, 10_000, Rounding::Floor), Some(0));
    assert_eq!(safe_mul_div(0, 0, 10_000, Rounding::Floor), Some(0));
}

#[test]
fn safe_mul_div_max_boundary() {
    assert_eq!(safe_mul_div(u128::MAX, 1, 1, Rounding::Floor), Some(u128::MAX));
    assert_eq!(safe_mul_div(u128::MAX, 1, 2, Rounding::Floor), Some(u128::MAX / 2));
}

// ── mul_div ──────────────────────────────────────────────────────────────

#[test]
fn mul_div_basic() {
    assert_eq!(mul_div(1_000, 300, 10_000, Rounding::Floor), 30);
}

#[test]
fn mul_div_truncates_toward_zero() {
    // 7 * 1 / 3 = 2.33… → 2
    assert_eq!(mul_div(7, 1, 3, Rounding::Floor), 2);
}

#[test]
fn mul_div_identity_denominator() {
    assert_eq!(mul_div(42, 1, 1, Rounding::Floor), 42);
}

// ── apply_bps ────────────────────────────────────────────────────────────

#[test]
fn apply_bps_half_percent_truncates() {
    assert_eq!(apply_bps(200, 50, Rounding::Floor), 1);
}

#[test]
fn apply_bps_sub_unit_truncates_to_zero() {
    assert_eq!(apply_bps(50, 1, Rounding::Floor), 0);
}

// ── mul_div ───────────────────────────────────────────────────────────────

#[test]
fn mul_div_exact_floor() {
    // 1 000 × 3 / 10 = 300 exactly
    assert_eq!(mul_div(1_000, 3, 10, Rounding::Floor), 300);
}

#[test]
fn mul_div_exact_ceil() {
    // 1 000 × 3 / 10 = 300 exactly — ceil should not add 1
    assert_eq!(mul_div(1_000, 3, 10, Rounding::Ceil), 300);
}

#[test]
fn mul_div_remainder_floor() {
    // 1 001 × 3 / 10 = 300.3 → floor → 300
    assert_eq!(mul_div(1_001, 3, 10, Rounding::Floor), 300);
}

#[test]
fn mul_div_remainder_ceil() {
    // 1 001 × 3 / 10 = 300.3 → ceil → 301
    assert_eq!(mul_div(1_001, 3, 10, Rounding::Ceil), 301);
}

#[test]
fn mul_div_zero_numerator() {
    assert_eq!(mul_div(1_000_000, 0, 10_000, Rounding::Floor), 0);
    assert_eq!(mul_div(1_000_000, 0, 10_000, Rounding::Ceil), 0);
}

#[test]
fn mul_div_zero_a() {
    assert_eq!(mul_div(0, 300, 10_000, Rounding::Floor), 0);
    assert_eq!(mul_div(0, 300, 10_000, Rounding::Ceil), 0);
}

#[test]
fn mul_div_denominator_equals_numerator() {
    // a × n / n = a
    assert_eq!(mul_div(42, 7, 7, Rounding::Floor), 42);
    assert_eq!(mul_div(42, 7, 7, Rounding::Ceil), 42);
}

#[test]
fn mul_div_large_values_floor() {
    // u128::MAX / 2 × 2 / 2 = u128::MAX / 2
    let half = u128::MAX / 2;
    assert_eq!(mul_div(half, 2, 2, Rounding::Floor), half);
}

#[test]
fn mul_div_one_bps_of_small_amount_floor() {
    // 1 token × 1 bps / 10_000 = 0.0001 → floor → 0
    assert_eq!(mul_div(1, 1, 10_000, Rounding::Floor), 0);
}

#[test]
fn mul_div_one_bps_of_small_amount_ceil() {
    // 1 token × 1 bps / 10_000 = 0.0001 → ceil → 1
    assert_eq!(mul_div(1, 1, 10_000, Rounding::Ceil), 1);
}


// ── scale_up / scale_down ─────────────────────────────────────────────────

#[test]
fn scale_up_and_down_roundtrip_floor() {
    let v = 12_345_678_u128;
    assert_eq!(scale_down(scale_up(v), Rounding::Floor), v);
}

#[test]
fn scale_up_and_down_roundtrip_ceil_exact() {
    let v = 99_u128;
    // scale_up then scale_down with ceil on an exact multiple → same value
    assert_eq!(scale_down(scale_up(v), Rounding::Ceil), v);
}

#[test]
fn scale_down_ceil_adds_one_for_remainder() {
    // SCALE + 1 → quotient 1, remainder 1 → ceil → 2
    assert_eq!(scale_down(SCALE + 1, Rounding::Ceil), 2);
}

#[test]
fn scale_down_floor_truncates_remainder() {
    // SCALE + 1 → quotient 1, remainder 1 → floor → 1
    assert_eq!(scale_down(SCALE + 1, Rounding::Floor), 1);
}

#[test]
fn scale_down_zero() {
    assert_eq!(scale_down(0, Rounding::Floor), 0);
    assert_eq!(scale_down(0, Rounding::Ceil), 0);
}

// ── apply_bps ─────────────────────────────────────────────────────────────

#[test]
fn apply_bps_full_rate() {
    assert_eq!(apply_bps(500, 10_000, Rounding::Floor), 500);
    // 10 000 tokens × 10 000 bps (100 %) = 10 000 tokens
    assert_eq!(apply_bps(10_000, 10_000, Rounding::Floor), 10_000);
}

#[test]
fn apply_bps_zero_rate() {
    assert_eq!(apply_bps(1_000_000, 0, Rounding::Floor), 0);
}

// ── prorate_interest ─────────────────────────────────────────────────────

#[test]
fn prorate_interest_zero_elapsed() {
    assert_eq!(prorate_interest(1_000_000, 500, 0, Rounding::Floor), 0);
    assert_eq!(apply_bps(1_000_000, 0, Rounding::Floor), 0);
    assert_eq!(apply_bps(1_000_000, 0, Rounding::Ceil), 0);
}

#[test]
fn apply_bps_zero_amount() {
    assert_eq!(apply_bps(0, 300, Rounding::Floor), 0);
    assert_eq!(apply_bps(0, 300, Rounding::Ceil), 0);
}

#[test]
fn apply_bps_one_bps_small_amount_floor() {
    // 1 token × 1 bps = 0.0001 → floor → 0
    assert_eq!(apply_bps(1, 1, Rounding::Floor), 0);
}

#[test]
fn apply_bps_one_bps_small_amount_ceil() {
    // 1 token × 1 bps = 0.0001 → ceil → 1
    assert_eq!(apply_bps(1, 1, Rounding::Ceil), 1);
}

#[test]
fn apply_bps_one_bps_threshold_floor() {
    // 10 000 tokens × 1 bps = 1 token exactly
    assert_eq!(apply_bps(10_000, 1, Rounding::Floor), 1);
}

#[test]
fn apply_bps_large_amount() {
    // i128::MAX as u128 × 1 bps / 10_000
    let large: u128 = i128::MAX as u128;
    let expected = large / 10_000;
    assert_eq!(apply_bps(large, 1, Rounding::Floor), expected);
}

// ── prorate_interest ──────────────────────────────────────────────────────

#[test]
fn prorate_interest_full_year() {
    // 10% on 100_000 for 365 days. The accrual year is 365.25 days
    // (31 557 600 s), so a 365-day elapse gives
    // floor(100 000 × 1 000 × 31 536 000 / (10 000 × 31 557 600)) = 9 993.
    assert_eq!(prorate_interest(100_000, 1_000, 31_536_000, Rounding::Floor), 9_993);
}

#[test]
fn prorate_interest_one_full_year_floor() {
    // 10 000 tokens at 300 bps for exactly one year → 300 tokens
    let interest = prorate_interest(10_000, 300, SECONDS_PER_YEAR as u64, Rounding::Floor);
    assert_eq!(interest, 300);
}

#[test]
fn prorate_interest_one_full_year_ceil() {
    // Exact result → ceil should equal floor
    let interest = prorate_interest(10_000, 300, SECONDS_PER_YEAR as u64, Rounding::Ceil);
    assert_eq!(interest, 300);
}

#[test]
fn prorate_interest_half_year() {
    // 10 000 tokens at 300 bps for half a year → 150 tokens
    let half_year = (SECONDS_PER_YEAR / 2) as u64;
    let interest = prorate_interest(10_000, 300, half_year, Rounding::Floor);
    assert_eq!(interest, 150);
}

#[test]
fn prorate_interest_one_day() {
    // 10 000 tokens at 300 bps for one day
    // = 10_000 × 300 × 86_400 / 315_576_000_000
    // = 259_200_000 / 315_576_000_000 ≈ 0.000821 → floor → 0
    let interest = prorate_interest(10_000, 300, 86_400, Rounding::Floor);
    assert_eq!(interest, 0);
}

#[test]
fn prorate_interest_one_day_ceil() {
    // Same as above but ceil → 1
    let interest = prorate_interest(10_000, 300, 86_400, Rounding::Ceil);
    assert_eq!(interest, 1);
}

#[test]
fn prorate_interest_zero_principal() {
    assert_eq!(prorate_interest(0, 500, 86_400, Rounding::Floor), 0);
}


#[test]
fn prorate_interest_one_hour() {
    // 5% on 1_000_000 for 3_600 s ≈ 5
    assert_eq!(prorate_interest(1_000_000, 500, 3_600, Rounding::Floor), 5);
}

#[test]
fn prorate_interest_zero_rate() {
    assert_eq!(prorate_interest(10_000, 0, 86_400, Rounding::Floor), 0);
}

#[test]
fn prorate_interest_zero_time() {
    assert_eq!(prorate_interest(10_000, 300, 0, Rounding::Floor), 0);
}

#[test]
fn prorate_interest_max_rate_one_year() {
    // 10 000 tokens at 10 000 bps (100 %) for one year → 10 000 tokens
    let interest = prorate_interest(10_000, 10_000, SECONDS_PER_YEAR as u64, Rounding::Floor);
    assert_eq!(interest, 10_000);
}

#[test]
fn prorate_interest_one_bps_small_principal_floor() {
    // 1 token at 1 bps for one year = 1 × 1 / 10_000 = 0.0001 → floor → 0
    let interest = prorate_interest(1, 1, SECONDS_PER_YEAR as u64, Rounding::Floor);
    assert_eq!(interest, 0);
}

#[test]
fn prorate_interest_one_bps_small_principal_ceil() {
    // 1 token at 1 bps for one year = 0.0001 → ceil → 1
    let interest = prorate_interest(1, 1, SECONDS_PER_YEAR as u64, Rounding::Ceil);
    assert_eq!(interest, 1);
}

#[test]
fn prorate_interest_large_principal_one_year() {
    // 1_000_000_000 tokens at 500 bps for one year → 50_000_000 tokens
    let interest =
        prorate_interest(1_000_000_000, 500, SECONDS_PER_YEAR as u64, Rounding::Floor);
    assert_eq!(interest, 50_000_000);
}

#[test]
fn prorate_interest_floor_less_than_or_equal_ceil() {
    // Property: floor result ≤ ceil result for any inputs
    let cases: &[(u128, u32, u64)] = &[
        (1, 1, 1),
        (10_000, 300, 86_400),
        (1_000_000, 9_999, SECONDS_PER_YEAR as u64),
        (u32::MAX as u128, 10_000, u32::MAX as u64),
    ];
    for &(p, r, t) in cases {
        let floor = prorate_interest(p, r, t, Rounding::Floor);
        let ceil = prorate_interest(p, r, t, Rounding::Ceil);
        assert!(
            floor <= ceil,
            "floor ({floor}) > ceil ({ceil}) for principal={p}, rate={r}, time={t}"
        );
    }
}

#[test]
fn prorate_interest_ceil_floor_diff_at_most_one() {
    // Property: ceil - floor ∈ {0, 1}
    let cases: &[(u128, u32, u64)] = &[
        (1, 1, 1),
        (7, 3, 100),
        (10_000, 300, 86_400),
        (999_999, 1, SECONDS_PER_YEAR as u64),
    ];
    for &(p, r, t) in cases {
        let floor = prorate_interest(p, r, t, Rounding::Floor);
        let ceil = prorate_interest(p, r, t, Rounding::Ceil);
        assert!(
            ceil - floor <= 1,
            "ceil - floor > 1 for principal={p}, rate={r}, time={t}"
        );
    }
}

#[test]
fn prorate_interest_monotone_in_time() {
    // More time → more (or equal) interest
    let p = 1_000_000_u128;
    let r = 300_u32;
    let t1 = 86_400_u64;
    let t2 = 86_400_u64 * 30;
    assert!(
        prorate_interest(p, r, t2, Rounding::Floor)
            >= prorate_interest(p, r, t1, Rounding::Floor)
    );
}

#[test]
fn prorate_interest_monotone_in_rate() {
    // Higher rate → more (or equal) interest
    let p = 1_000_000_u128;
    let t = SECONDS_PER_YEAR as u64;
    assert!(
        prorate_interest(p, 500, t, Rounding::Floor)
            >= prorate_interest(p, 300, t, Rounding::Floor)
    );
}

#[test]
fn prorate_interest_monotone_in_principal() {
    // Larger principal → more (or equal) interest
    let r = 300_u32;
    let t = SECONDS_PER_YEAR as u64;
    assert!(
        prorate_interest(2_000_000, r, t, Rounding::Floor)
            >= prorate_interest(1_000_000, r, t, Rounding::Floor)
    );
}

#[test]
fn prorate_interest_max_u32_principal_and_time() {
    // Stress test with u32::MAX values — should not panic
    let p = u32::MAX as u128; // ~4.3 × 10^9
    let r = 10_000_u32;
    let t = u32::MAX as u64; // ~4.3 × 10^9 seconds ≈ 136 years
                             // p × r × t = 4.3e9 × 10_000 × 4.3e9 ≈ 1.85 × 10^23 — fits in u128
    let _ = prorate_interest(p, r, t, Rounding::Floor);
    let _ = prorate_interest(p, r, t, Rounding::Ceil);
}

#[test]
fn prorate_interest_exact_boundary_no_remainder() {
    // Construct inputs where the division is exact → floor == ceil
    // principal × rate_bps × time_delta must be divisible by BPS_YEAR_DENOM
    // Use principal = BPS_YEAR_DENOM, rate = 10_000, time = SECONDS_PER_YEAR
    // → BPS_YEAR_DENOM × 10_000 × SECONDS_PER_YEAR / BPS_YEAR_DENOM
    //   = 10_000 × SECONDS_PER_YEAR
    let p = BPS_YEAR_DENOM;
    let r = 10_000_u32;
    let t = SECONDS_PER_YEAR as u64;
    let floor = prorate_interest(p, r, t, Rounding::Floor);
    let ceil = prorate_interest(p, r, t, Rounding::Ceil);
    assert_eq!(floor, ceil, "exact division should give floor == ceil");
}

// ── compute_deviation_bps ─────────────────────────────────────────────────

#[test]
fn deviation_five_percent_up() {
    // 1050 vs 1000 → 50/1000 * 10_000 = 500 bps
    assert_eq!(compute_deviation_bps(1_050, 1_000), Some(500));
}

#[test]
fn deviation_five_percent_down() {
    // 950 vs 1000 → 50/1000 * 10_000 = 500 bps
    assert_eq!(compute_deviation_bps(950, 1_000), Some(500));
}

#[test]
fn deviation_zero_change() {
    assert_eq!(compute_deviation_bps(1_000, 1_000), Some(0));
}

#[test]
fn deviation_one_bps() {
    // 10_001 vs 10_000 → 1/10_000 * 10_000 = 1 bps
    assert_eq!(compute_deviation_bps(10_001, 10_000), Some(1));
}

#[test]
fn deviation_hundred_percent() {
    // 2000 vs 1000 → 1000/1000 * 10_000 = 10_000 bps
    assert_eq!(compute_deviation_bps(2_000, 1_000), Some(10_000));
}

#[test]
fn deviation_zero_last_price_returns_none() {
    assert_eq!(compute_deviation_bps(100, 0), None);
}

#[test]
fn deviation_negative_last_price_returns_none() {
    assert_eq!(compute_deviation_bps(100, -1), None);
}

#[test]
fn deviation_saturates_for_absurd_prices() {
    assert_eq!(compute_deviation_bps(i128::MAX, 1), Some(u32::MAX));
    assert_eq!(compute_deviation_bps(i128::MIN, 1), Some(u32::MAX));
    assert_eq!(compute_deviation_bps(i128::MIN, i128::MAX), Some(20_000));
    assert_eq!(compute_deviation_bps(430_000, 1), Some(u32::MAX));
    assert_eq!(compute_deviation_bps(429_497, 1), Some(4_294_960_000));
}
// ── prorate_interest: monotonicity & overflow-safety properties ──────────
//
// These mirror the `cfg(kani)` harnesses in `proofs/prorate_interest.rs`
// so the same guarantees run under the normal `cargo test` suite (Kani
// runs only in CI). Inputs use the same overflow-safe envelope.

const PRINCIPAL_MAX: u128 = 1_000_000_000_000_000_000_000_000; // 10^24
const RATE_MAX: u32 = 10_000;
const TIME_MAX: u64 = 1_000_000_000; // 10^9 (~31.7 years)

#[test]
fn overflow_safe_at_envelope_corners() {
    let _ = prorate_interest(PRINCIPAL_MAX, RATE_MAX, TIME_MAX, Rounding::Floor);
    let _ = prorate_interest(PRINCIPAL_MAX, RATE_MAX, TIME_MAX, Rounding::Ceil);
}

#[test]
fn ceil_within_one_of_floor() {
    for &(p, r, t) in &[
        (10_000u128, 300u32, 86_400u64),
        (1, 1, 1),
        (PRINCIPAL_MAX, RATE_MAX, TIME_MAX),
        (123_456_789, 777, 1_000_000),
    ] {
        let f = prorate_interest(p, r, t, Rounding::Floor);
        let c = prorate_interest(p, r, t, Rounding::Ceil);
        assert!(c >= f, "ceil < floor for ({p}, {r}, {t})");
        assert!(c - f <= 1, "ceil - floor > 1 for ({p}, {r}, {t})");
    }
}
