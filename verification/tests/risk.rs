use creditra_credit::handshake::{get_current_version, verify_version, ProtocolVersion};
use creditra_credit::risk::compute_rate_from_score;
use creditra_credit::types::RateFormulaConfig;

fn formula(base: u32, slope: u32, min: u32, max: u32) -> RateFormulaConfig {
    RateFormulaConfig { base_rate_bps: base, slope_bps_per_score: slope, min_rate_bps: min, max_rate_bps: max }
}

#[test]
fn rate_from_score_is_linear_inside_the_band() {
    let f = formula(200, 10, 250, 1_000);
    assert_eq!(compute_rate_from_score(&f, 50), 700);
    assert_eq!(compute_rate_from_score(&f, 0), 250);
    assert_eq!(compute_rate_from_score(&f, 100), 1_000);
}

#[test]
fn rate_from_score_saturates_and_caps_at_max_rate() {
    let f = formula(u32::MAX, u32::MAX, 0, 50_000);
    assert_eq!(compute_rate_from_score(&f, u32::MAX), 10_000);
}

#[test]
fn misconfigured_formula_still_caps_at_max_rate() {
    // A floor above the 10 000 bps cap cannot lift the rate past the cap.
    let f = formula(200, 10, 12_000, 15_000);
    assert_eq!(compute_rate_from_score(&f, 50), 10_000);
    assert_eq!(compute_rate_from_score(&f, 0), 10_000);
}

#[test]
fn rate_from_score_is_monotone_in_score() {
    let f = formula(100, 37, 0, 10_000);
    let mut prev = 0;
    for s in 0..=100 {
        let r = compute_rate_from_score(&f, s);
        assert!(r >= prev);
        assert!(r <= 10_000);
        prev = r;
    }
}

#[test]
fn handshake_accepts_same_major() {
    assert_eq!(get_current_version(), ProtocolVersion { major: 1, minor: 0 });
    assert!(verify_version(ProtocolVersion { major: 1, minor: 7 }));
    assert!(!verify_version(ProtocolVersion { major: 2, minor: 0 }));
}

#[test]
fn contract_version_is_one_zero_zero() {
    assert_eq!(creditra_credit::Credit::get_contract_version(), (1, 0, 0));
}
