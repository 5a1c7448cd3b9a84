use payroll_tax::basic_personal_income::{A, A_grad, BPAF, S1};
use payroll_tax::errors::TaxError;
use payroll_tax::year::v2025;

#[test]
#[allow(non_snake_case)]
fn test_BPAF_minimum_amt() {
    let result = BPAF(1_000_000, 0);
    assert_eq!(result.unwrap(), v2025::MINIMUM_BASIC_AMT);
}

#[test]
#[allow(non_snake_case)]
fn test_BPAF_maximum_amt() {
    let result = BPAF(25_341_401, 0);
    assert_eq!(result.unwrap(), v2025::MAXIMUM_BASIC_AMT);
}

#[test]
fn test_bpaf_band_interpolation_exact() {
    // half-way up the phase-out band: 16_129.00 - 50 * 15.91 = 15_333.50
    assert_eq!(BPAF(17_788_200 + 3_776_600, 0).unwrap(), 1_533_350);
}

#[test]
fn test_bpaf_non_increasing_across_band() {
    let low = BPAF(17_788_200, 0).unwrap();
    let band1 = BPAF(20_000_000, 0).unwrap();
    let band2 = BPAF(21_000_000, 0).unwrap();
    let high = BPAF(25_341_401, 0).unwrap();
    assert_eq!(band1, 1_566_311);
    assert_eq!(band2, 1_545_247);
    assert!(low >= band1 && band1 >= band2 && band2 >= high);
}

#[test]
fn test_bpaf_domain_gap_at_upper_threshold() {
    assert_eq!(BPAF(25_341_400, 0), Err(TaxError::Domain));
}

#[test]
fn test_annual_income_periodic() {
    let (annual, tax) = A(26, 500_000, 20_000, 0, 3_000, 1_500, 0, 0, 77_777, 4_200);
    assert_eq!(annual, 12_363_000);
    assert_eq!(tax, 77_777);
}

#[test]
fn test_annual_income_negative_substitutes_requested_extra() {
    let (annual, tax) = A(1, 1_000, 50_000, 0, 0, 0, 0, 0, 77_777, 4_200);
    assert_eq!(annual, -49_000);
    assert_eq!(tax, 4_200);
}

#[test]
fn test_annual_income_cumulative() {
    let annual = A_grad(26, 500_000, 20_000, 150_000, 0, 0, 3_000, 0, 1_500, 10_000, 25_000);
    assert_eq!(annual, 12_198_000);
}

#[test]
fn test_annual_income_cumulative_saturates_to_zero() {
    let annual = A_grad(0, 500_000, 0, 0, 0, 0, 0, 0, 0, 0, 100);
    assert_eq!(annual, 0);
}

#[test]
fn test_annualizing_factor() {
    assert_eq!(S1(26, 2).unwrap(), 13);
}

#[test]
fn test_annualizing_factor_truncates() {
    assert_eq!(S1(26, 4).unwrap(), 6);
}

#[test]
fn test_annualizing_factor_zero_period_refused() {
    assert_eq!(S1(26, 0), Err(TaxError::Precondition));
}
