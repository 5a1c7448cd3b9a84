use payroll_tax::errors::TaxError;
use payroll_tax::federal_income_tax::{
    F1, F5, F5A, K1, K2, K2_YTD, K2_grad, K3, K4, LCF, T1, T1_grad, T3,
};

#[test]
fn test_annual_deductions_prorated() {
    assert_eq!(F1(26, 10, 100_000).unwrap(), 260_000);
}

#[test]
fn test_annual_deductions_zero_remaining_refused() {
    assert_eq!(F1(26, 0, 100_000), Err(TaxError::Precondition));
}

#[test]
fn test_additional_cpp_deduction() {
    // 300.00 * (0.100 / 0.0595) + 50.00 = 554.20168... -> 554.20
    assert_eq!(F5(30_000, 5_000), 55_420);
}

#[test]
fn test_additional_cpp_deduction_zero() {
    assert_eq!(F5(0, 0), 0);
}

#[test]
fn test_additional_cpp_periodic_share() {
    // 100.00 * (2000.00 - 500.00) / 2000.00 = 75.00
    assert_eq!(F5A(10_000, 200_000, 50_000).unwrap(), 7_500);
}

#[test]
fn test_additional_cpp_periodic_share_zero_earnings_refused() {
    assert_eq!(F5A(10_000, 0, 0), Err(TaxError::Precondition));
}

#[test]
fn test_basic_federal_tax() {
    // 20.5% of 100_000.00 less 15_000.00 and 1_500.00 of credits
    assert_eq!(T3(2_050, 10_000_000, 1_500_000, 150_000, 0, 0, 0), 400_000);
}

#[test]
fn test_basic_federal_tax_saturates_to_zero() {
    assert_eq!(T3(1_500, 1_000_000, 0, 150_000, 0, 0, 24_465), 0);
}

#[test]
fn test_personal_credit() {
    assert_eq!(K1(100_000), 15_000);
}

#[test]
fn test_cpp_ei_credit_periodic() {
    // both annualized bases hit their annual maxima:
    // 15% of (4_034.10 * 99/119 + 1_077.48)
    assert_eq!(K2(26, 12, 25_000, 8_000), 76_674);
}

#[test]
fn test_cpp_ei_credit_partial_year_prorates_cpp_to_zero() {
    // eleven or fewer months of contributions truncate the CPP side away
    assert_eq!(K2(26, 6, 25_000, 8_000), 16_162);
}

#[test]
fn test_cpp_ei_credit_annualized_premium_capped() {
    // 26 periods of an 80.00 premium annualize past the maximum:
    // 15% of 1_077.48 = 161.62
    assert_eq!(K2(26, 12, 0, 8_000), 16_162);
}

#[test]
fn test_cpp_ei_credit_below_the_caps() {
    assert_eq!(K2(26, 12, 25_000, 3_000), 72_212);
}

#[test]
fn test_cpp_ei_credit_cumulative() {
    assert_eq!(K2_grad(26, 300_000, 0, 300_000), 3_260);
}

#[test]
fn test_cpp_ei_credit_year_to_date() {
    assert_eq!(K2_YTD(12, 10, 25_000, 100_000, 40_000, 8_000), 59_839);
}

#[test]
fn test_other_credits_prorated() {
    assert_eq!(K3(26, 13, 50_000).unwrap(), 100_000);
}

#[test]
fn test_other_credits_zero_remaining_refused() {
    assert_eq!(K3(26, 0, 50_000), Err(TaxError::Precondition));
}

#[test]
fn test_employment_amount_credit_income_side() {
    // income smaller than the employment amount: 15% of 100.00
    assert_eq!(K4(10_000, 16_310_000), 1_500);
}

#[test]
fn test_employment_amount_credit_capped_by_employment_amount() {
    // 15% of the 1_631.00 employment amount
    assert_eq!(K4(100_000_000, 163_100), 24_465);
}

#[test]
fn test_annual_federal_deduction() {
    assert_eq!(T1(500_000, 26, 1_000, false), 474_000);
}

#[test]
fn test_annual_federal_deduction_outside_limits() {
    assert_eq!(T1(500_000, 26, 1_000, true), 714_000);
}

#[test]
fn test_annual_federal_deduction_saturates_to_zero() {
    assert_eq!(T1(100, 26, 1_000, false), 0);
}

#[test]
fn test_annual_federal_deduction_cumulative() {
    assert_eq!(T1_grad(500_000, 100_000, false), 400_000);
}

#[test]
fn test_labour_funds_credit_below_cap_returns_acquisition() {
    assert_eq!(LCF(400_000), 400_000);
}

#[test]
fn test_labour_funds_credit_at_and_past_cap() {
    assert_eq!(LCF(500_000), 75_000);
    assert_eq!(LCF(600_000), 75_000);
}

#[test]
fn test_labour_funds_credit_just_below_switch() {
    assert_eq!(LCF(499_999), 499_999);
}
