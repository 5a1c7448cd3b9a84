use payroll_tax::errors::TaxError;
use payroll_tax::income_tax::{T, T_grad};

#[test]
fn test_pay_period_tax_periodic() {
    // (1_000.00 + 500.00) / 26 + 10.00 = 67.69
    assert_eq!(T(100_000, 50_000, 26, 1_000).unwrap(), 6_769);
}

#[test]
fn test_pay_period_tax_zero_periods_refused() {
    assert_eq!(T(100_000, 50_000, 0, 1_000), Err(TaxError::Precondition));
}

#[test]
fn test_pay_period_tax_cumulative() {
    // (1_200.00 + 600.00 - 100.00) / 2 - 500.00 + 5.00 = 355.00
    assert_eq!(T_grad(120_000, 60_000, 10_000, 2, 50_000, 500).unwrap(), 35_500);
}

#[test]
fn test_pay_period_tax_cumulative_floor_is_requested_extra() {
    // the cumulative average goes negative: only the requested extra is kept
    assert_eq!(T_grad(120_000, 60_000, 10_000, 2, 100_000, 500).unwrap(), 500);
}

#[test]
fn test_pay_period_tax_cumulative_zero_factor_refused() {
    assert_eq!(T_grad(120_000, 60_000, 10_000, 0, 50_000, 500), Err(TaxError::Precondition));
}

#[test]
fn test_identical_inputs_give_identical_results() {
    let first = T(123_456, 78_901, 26, 2_500);
    let second = T(123_456, 78_901, 26, 2_500);
    assert_eq!(first, second);
    let first_grad = T_grad(123_456, 78_901, 1_000, 13, 2_000, 500);
    let second_grad = T_grad(123_456, 78_901, 1_000, 13, 2_000, 500);
    assert_eq!(first_grad, second_grad);
}
