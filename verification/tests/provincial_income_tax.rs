use payroll_tax::provincial_income_tax::ontario::{S, V1, V2, Y};
use payroll_tax::provincial_income_tax::{K1P, K2P, T2, T4};

#[test]
fn test_basic_provincial_tax() {
    // 5.05% of 50_000.00 less 631.31 of credits
    assert_eq!(T4(505, 5_000_000, 0, 63_131, 0, 0, 0), 189_369);
}

#[test]
fn test_basic_provincial_tax_saturates_to_zero() {
    assert_eq!(T4(505, 100_000, 0, 63_131, 0, 0, 0), 0);
}

#[test]
fn test_annual_provincial_deduction() {
    assert_eq!(T2(600_000, 5_800, 6_800, 0, 26, 0), 612_600);
}

#[test]
fn test_annual_provincial_deduction_saturates_to_zero() {
    assert_eq!(T2(0, 0, 0, 100_000, 26, 0), 0);
}

#[test]
fn test_provincial_personal_credit() {
    assert_eq!(K1P(505, 1_200_000), 60_600);
}

#[test]
fn test_provincial_cpp_ei_credit() {
    assert_eq!(K2P(505, 26, 12, 25_000, 8_000), 25_813);
}

#[test]
fn test_surtax_below_first_threshold() {
    assert_eq!(V1(500_000), 0);
}

#[test]
fn test_surtax_first_band() {
    // 20% of the 290.00 above 5_710.00
    assert_eq!(V1(600_000), 5_800);
}

#[test]
fn test_surtax_second_band() {
    // 20% above 5_710.00 plus 36% above 7_307.00
    assert_eq!(V1(800_000), 70_748);
}

#[test]
fn test_health_premium_below_first_bracket() {
    assert_eq!(V2(1_500_000), 0);
}

#[test]
fn test_health_premium_first_bracket() {
    // 6% of the 1_000.00 above 20_000.00
    assert_eq!(V2(2_100_000), 6_000);
}

#[test]
fn test_health_premium_first_bracket_cap() {
    assert_eq!(V2(3_000_000), 30_000);
}

#[test]
fn test_health_premium_second_bracket_cap() {
    assert_eq!(V2(4_000_000), 45_000);
}

#[test]
fn test_health_premium_third_bracket_saturates_to_zero() {
    // the third bracket's linear formula is negative at 50_000.00 of
    // income; the published premium saturates at zero
    assert_eq!(V2(5_000_000), 0);
}

#[test]
fn test_health_premium_fourth_bracket() {
    assert_eq!(V2(7_000_000), 10_000);
}

#[test]
fn test_health_premium_top_cap() {
    assert_eq!(V2(25_000_000), 90_000);
}

#[test]
fn test_health_premium_bracket_edges() {
    // an income exactly on a bracket edge belongs to the bracket it opens
    assert_eq!(V2(2_000_000), 0);
    assert_eq!(V2(3_600_000), 30_000);
    assert_eq!(V2(7_200_000), 60_000);
    assert_eq!(V2(20_000_000), 75_000);
}

#[test]
fn test_tax_reduction_tax_side() {
    assert_eq!(S(10_000, 0, 0), 10_000);
}

#[test]
fn test_tax_reduction_credit_side() {
    assert_eq!(S(40_000, 0, 0), 18_800);
}

#[test]
fn test_tax_reduction_saturates_to_zero() {
    assert_eq!(S(300_000, 0, 54_400), 0);
}

#[test]
fn test_dependant_credit() {
    assert_eq!(Y(2, 1), 163_200);
    assert_eq!(Y(0, 0), 0);
}
