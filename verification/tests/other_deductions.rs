use payroll_tax::errors::TaxError;
use payroll_tax::other_deductions::{C, C2, EI, W};

#[test]
fn test_cpp_contribution_cap_side() {
    // full-year maximum, nothing contributed yet: the cap side wins
    assert_eq!(C(12, 0, 100_000, 26).unwrap(), 403_410);
}

#[test]
fn test_cpp_contribution_rate_side() {
    // 5.95% of (1_000.00 - 3_500.00 / 26) = 51.4904 -> 51.49
    assert_eq!(C(12, 400_000, 100_000, 26).unwrap(), 5_149);
}

#[test]
fn test_cpp_contribution_no_months_prorates_cap_away() {
    assert_eq!(C(0, 100_000, 100_000, 26).unwrap(), 5_149);
}

#[test]
fn test_cpp_contribution_zero_periods_refused() {
    assert_eq!(C(12, 0, 100_000, 0), Err(TaxError::Precondition));
}

#[test]
fn test_second_additional_cpp() {
    // 4% of the 1_700.00 of earnings above the baseline
    assert_eq!(C2(12, 0, 7_000_000, 300_000, 7_130_000), 6_800);
}

#[test]
fn test_second_additional_cpp_saturates_to_zero() {
    // year-to-date second-additional contributions already past the cap
    assert_eq!(C2(12, 9_000_000, 7_000_000, 300_000, 7_130_000), 0);
}

#[test]
fn test_earnings_baseline_uses_prorated_maximum() {
    assert_eq!(W(7_000_000, 7_130_000, 12), 7_130_000);
}

#[test]
fn test_earnings_baseline_uses_actual_earnings() {
    assert_eq!(W(7_000_000, 7_130_000, 6), 7_000_000);
}

#[test]
fn test_ei_premium_rate_side() {
    // 1.64% of 3_000.00
    assert_eq!(EI(0, 300_000), 4_920);
}

#[test]
fn test_ei_premium_capped_by_annual_maximum() {
    assert_eq!(EI(107_000, 300_000), 748);
}
