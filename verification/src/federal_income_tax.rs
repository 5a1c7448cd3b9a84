//! Federal income-tax formulas: annualized deductions, the additional-CPP
//! deduction split, the K-factor credit chain, basic federal tax and the
//! annual federal deduction, in their periodic, cumulative-average and
//! year-to-date variants.
//!
//! Rates appear as exact fractions over a power-of-ten scale: the lowest
//! federal rate 15% is `1_500 / 10_000`, the base CPP rate 5.95% is
//! `595 / 10_000`, its original 4.95% credit portion `495 / 10_000`, and the
//! EI premium rate 1.64% is `164 / 10_000`.

use crate::errors::TaxError;
use crate::money::{
    is_amount, is_month_count, is_period_count, is_rate, lemma_prorate_by_months,
    prorate_by_months,
};
use crate::rounding::{
    lemma_round_half_away_exact, lemma_round_half_away_monotonic, round_half_away, round_ratio,
};
use crate::year::v2025;
use vstd::prelude::*;

verus! {

/// Annual deductions prorated over the remaining pay periods: the year's
/// `P` pay periods' worth of the per-period amount `F1`, spread over the
/// `PR` pay periods left.  A zero `PR` would divide by zero and is refused.
#[allow(non_snake_case)]
pub fn F1(P: i64, PR: i64, F1_amount: i64) -> (r: Result<i64, TaxError>)
    requires
        is_period_count(P),
        is_period_count(PR),
        is_amount(F1_amount),
    ensures
        r is Err <==> PR == 0,
        r matches Ok(v) ==> v == round_half_away(P * F1_amount, PR as int),
        r matches Ok(v) ==> v >= 0,
        r matches Err(e) ==> e == TaxError::Precondition,
{
    if PR == 0 {
        Err(TaxError::Precondition)
    } else {
        proof {
            assert(0 <= (P as int) * (F1_amount as int) <= 366 * 10_000_000_000_000)
                by (nonlinear_arith)
                requires
                    0 <= P <= 366,
                    0 <= F1_amount <= 10_000_000_000_000,
            ;
        }
        let num: i128 = (P as i128) * (F1_amount as i128);
        let rounded: i128 = round_ratio(num, PR as i128);
        Ok(rounded as i64)
    }
}

/// Additional-CPP deduction for the pay period: the base contribution `C`
/// scaled from the 5.95% contribution rate up to its 1.00% additional
/// component (the ratio `1_000 / 595` of the two rates), plus the second
/// additional contribution `C2`.
#[allow(non_snake_case)]
pub fn F5(C: i64, C2: i64) -> (r: i64)
    requires
        is_amount(C),
        is_amount(C2),
    ensures
        r == round_half_away(1_000 * C + 595 * C2, 595),
        r >= 0,
{
    let num: i128 = 1_000 * (C as i128) + 595 * (C2 as i128);
    let rounded: i128 = round_ratio(num, 595);
    rounded as i64
}

/// The share of the additional-CPP deduction `F5` that falls on periodic
/// income: `F5` scaled by the periodic fraction `(PI - B) / PI` of the
/// pensionable earnings.  `B`, the non-periodic part of the pensionable
/// earnings `PI`, never exceeds `PI`; a zero `PI` would divide by zero and
/// is refused.
#[allow(non_snake_case)]
pub fn F5A(F5: i64, PI: i64, B: i64) -> (r: Result<i64, TaxError>)
    requires
        is_amount(F5),
        is_amount(PI),
        is_amount(B),
        B <= PI,
    ensures
        r is Err <==> PI == 0,
        r matches Ok(v) ==> v == round_half_away(F5 * (PI - B), PI as int),
        r matches Ok(v) ==> 0 <= v <= F5,
        r matches Err(e) ==> e == TaxError::Precondition,
{
    if PI == 0 {
        Err(TaxError::Precondition)
    } else {
        proof {
            assert(0 <= (F5 as int) * ((PI - B) as int) <= (F5 as int) * (PI as int)
                <= 10_000_000_000_000 * 10_000_000_000_000) by (nonlinear_arith)
                requires
                    0 <= F5 <= 10_000_000_000_000,
                    0 <= PI - B <= PI <= 10_000_000_000_000,
            ;
        }
        let num: i128 = (F5 as i128) * ((PI - B) as i128);
        let rounded: i128 = round_ratio(num, PI as i128);
        proof {
            lemma_round_half_away_monotonic(num as int, (F5 as int) * (PI as int), PI as int);
            lemma_round_half_away_exact(F5 as int, PI as int);
        }
        Ok(rounded as i64)
    }
}

/// The value `T3` publishes: the federal rate `r` applied to the annual
/// taxable income `a`, less the federal constant and the four credits,
/// saturated at zero before rounding.  The rate lives over the scale
/// `10_000`, so the credits are brought onto that scale before subtracting.
pub open spec fn t3_value(r: int, a: int, k: int, k1: int, k2: int, k3: int, k4: int) -> int {
    let num = r * a - 10_000 * (k + k1 + k2 + k3 + k4);
    if num < 0 {
        0
    } else {
        round_half_away(num, 10_000)
    }
}

/// Annual basic federal tax: the federal rate `R` (in ten-thousandths) on
/// annual taxable income `A`, less the federal constant `K` and the credits
/// `K1`..`K4`, floored at zero.
#[allow(non_snake_case)]
pub fn T3(R: i64, A: i64, K: i64, K1: i64, K2: i64, K3: i64, K4: i64) -> (r: i64)
    requires
        is_rate(R),
        is_amount(A),
        is_amount(K),
        is_amount(K1),
        is_amount(K2),
        is_amount(K3),
        is_amount(K4),
    ensures
        r == t3_value(R as int, A as int, K as int, K1 as int, K2 as int, K3 as int, K4 as int),
        r >= 0,
{
    proof {
        assert(0 <= (R as int) * (A as int) <= 10_000 * 10_000_000_000_000) by (nonlinear_arith)
            requires
                0 <= R <= 10_000,
                0 <= A <= 10_000_000_000_000,
        ;
    }
    let credits: i128 = (K as i128) + (K1 as i128) + (K2 as i128) + (K3 as i128) + (K4 as i128);
    let num: i128 = (R as i128) * (A as i128) - 10_000 * credits;
    if num < 0 {
        0
    } else {
        let rounded: i128 = round_ratio(num, 10_000);
        rounded as i64
    }
}

/// Federal non-refundable personal tax credit: the lowest federal rate, 15%,
/// applied to the total claim amount `TC` from the federal TD1 form.
#[allow(non_snake_case)]
pub fn K1(TC: i64) -> (r: i64)
    requires
        is_amount(TC),
    ensures
        r == round_half_away(1_500 * TC, 10_000),
        r >= 0,
{
    let rounded: i128 = round_ratio(1_500 * (TC as i128), 10_000);
    rounded as i64
}

/// The value `K2` publishes.  The CPP side is the annualized contribution
/// `p * c` scaled by the `495 / 595` ratio of the credit-bearing portion of
/// the CPP rate, capped at the year's maximum CPP contribution and prorated
/// by whole months of contribution; the EI side is the annualized premium
/// `p * ei` capped at the year's EI maximum.  Both sides are credited at the
/// lowest federal rate, 15%, over the common scale `5_950_000`.
pub open spec fn k2_value(p: int, pm: int, c: int, ei: int) -> int {
    let cpp_num = 495 * (p * c);
    let cpp_clamped = if cpp_num > v2025::CPP_MAX_CONTRIBUTIONS * 595 {
        v2025::CPP_MAX_CONTRIBUTIONS * 595
    } else {
        cpp_num
    };
    let cpp_prorated = prorate_by_months(cpp_clamped, pm);
    let ei_annual = p * ei;
    let ei_capped = if ei_annual > v2025::EI_MAX_CONTRIBUTIONS {
        v2025::EI_MAX_CONTRIBUTIONS as int
    } else {
        ei_annual
    };
    round_half_away(1_500 * (cpp_prorated + 595 * ei_capped), 5_950_000)
}

/// Base CPP and EI federal tax credits for the year, periodic method.
/// `P` is the year's pay periods, `PM` the months of required contribution,
/// `C` the pay period's CPP contribution and `EI` its EI premium, in cents.
#[allow(non_snake_case)]
pub fn K2(P: i64, PM: i64, C: i64, EI: i64) -> (r: i64)
    requires
        is_period_count(P),
        is_month_count(PM),
        is_amount(C),
        is_amount(EI),
    ensures
        r == k2_value(P as int, PM as int, C as int, EI as int),
        r >= 0,
{
    proof {
        assert(0 <= (P as int) * (C as int) <= 366 * 10_000_000_000_000) by (nonlinear_arith)
            requires
                0 <= P <= 366,
                0 <= C <= 10_000_000_000_000,
        ;
        assert(0 <= (P as int) * (EI as int) <= 366 * 10_000_000_000_000) by (nonlinear_arith)
            requires
                0 <= P <= 366,
                0 <= EI <= 10_000_000_000_000,
        ;
    }
    let cpp_num: i128 = 495 * ((P as i128) * (C as i128));
    let cap: i128 = (v2025::CPP_MAX_CONTRIBUTIONS as i128) * 595;
    let cpp_clamped: i128 = if cpp_num > cap {
        cap
    } else {
        cpp_num
    };
    let cpp_prorated: i128 = if PM == 12 {
        cpp_clamped
    } else {
        0
    };
    proof {
        lemma_prorate_by_months(cpp_clamped as int, PM as int);
    }
    let ei_annual: i128 = (P as i128) * (EI as i128);
    let ei_capped: i128 = if ei_annual > (v2025::EI_MAX_CONTRIBUTIONS as i128) {
        v2025::EI_MAX_CONTRIBUTIONS as i128
    } else {
        ei_annual
    };
    let num: i128 = 1_500 * (cpp_prorated + 595 * ei_capped);
    let rounded: i128 = round_ratio(num, 5_950_000);
    rounded as i64
}

/// The value `K2_grad` publishes.  The annualized pensionable earnings, less
/// the basic exemption, are floored at zero and capped at the year's maximum
/// CPP contribution, then credited at 15% of the 4.95% base rate; the
/// annualized insurable earnings are capped at the year's maximum EI premium
/// and credited at 15% of the 1.64% premium rate.  Both rate products live
/// over the scale `100_000_000`.
pub open spec fn k2_grad_value(s1: int, pe: int, b1: int, ei: int) -> int {
    let cpp_base = s1 * pe + b1 - v2025::CPP_BASIC_EXEMPTION;
    let cpp_floored = if cpp_base < 0 {
        0
    } else {
        cpp_base
    };
    let cpp = if cpp_floored > v2025::CPP_MAX_CONTRIBUTIONS {
        v2025::CPP_MAX_CONTRIBUTIONS as int
    } else {
        cpp_floored
    };
    let ei_base = s1 * ei + b1;
    let ei_capped = if ei_base > v2025::EI_MAX_CONTRIBUTIONS {
        v2025::EI_MAX_CONTRIBUTIONS as int
    } else {
        ei_base
    };
    round_half_away(742_500 * cpp + 246_000 * ei_capped, 100_000_000)
}

/// Base CPP and EI federal tax credits for the year, cumulative-average
/// method.  `S1` is the annualizing factor, `PE` the pensionable and `EI`
/// the insurable earnings including their year-to-date accumulations, and
/// `B1` the year-to-date non-periodic payments, in cents.
#[allow(non_snake_case)]
pub fn K2_grad(S1: i64, PE: i64, B1: i64, EI: i64) -> (r: i64)
    requires
        is_period_count(S1),
        is_amount(PE),
        is_amount(B1),
        is_amount(EI),
    ensures
        r == k2_grad_value(S1 as int, PE as int, B1 as int, EI as int),
        r >= 0,
{
    proof {
        assert(0 <= (S1 as int) * (PE as int) <= 366 * 10_000_000_000_000) by (nonlinear_arith)
            requires
                0 <= S1 <= 366,
                0 <= PE <= 10_000_000_000_000,
        ;
        assert(0 <= (S1 as int) * (EI as int) <= 366 * 10_000_000_000_000) by (nonlinear_arith)
            requires
                0 <= S1 <= 366,
                0 <= EI <= 10_000_000_000_000,
        ;
    }
    let cpp_base: i128 = (S1 as i128) * (PE as i128) + (B1 as i128) - (v2025::CPP_BASIC_EXEMPTION
        as i128);
    let cpp_floored: i128 = if cpp_base < 0 {
        0
    } else {
        cpp_base
    };
    let cpp: i128 = if cpp_floored > (v2025::CPP_MAX_CONTRIBUTIONS as i128) {
        v2025::CPP_MAX_CONTRIBUTIONS as i128
    } else {
        cpp_floored
    };
    let ei_base: i128 = (S1 as i128) * (EI as i128) + (B1 as i128);
    let ei_capped: i128 = if ei_base > (v2025::EI_MAX_CONTRIBUTIONS as i128) {
        v2025::EI_MAX_CONTRIBUTIONS as i128
    } else {
        ei_base
    };
    let num: i128 = 742_500 * cpp + 246_000 * ei_capped;
    let rounded: i128 = round_ratio(num, 100_000_000);
    rounded as i64
}

/// The value `K2_YTD` publishes.  The CPP side takes the smaller of the
/// prorated annual maximum and the credit-rate share (`495 / 595`) of the
/// year-to-date contribution `d` plus the remaining periods' worth of the
/// current contribution, then credits it at 15%; the EI side credits 15% of
/// the year-to-date premium plus the remaining periods' worth of the current
/// premium, capped at the annual EI maximum.  Both live over the common
/// scale `5_950_000`.
pub open spec fn k2_ytd_value(pm: int, pr: int, c: int, d: int, d1: int, ei: int) -> int {
    let cpp_ftc1 = prorate_by_months(v2025::CPP_MAX_CONTRIBUTIONS * 595, pm);
    let cpp_ftc2 = 495 * (d + pr * c);
    let chosen = if cpp_ftc1 > cpp_ftc2 {
        cpp_ftc2
    } else {
        cpp_ftc1
    };
    let ei_annualized = d1 + pr * ei;
    let ei_ftc = if ei_annualized > v2025::EI_MAX_CONTRIBUTIONS {
        v2025::EI_MAX_CONTRIBUTIONS as int
    } else {
        ei_annualized
    };
    round_half_away(1_500 * chosen + 892_500 * ei_ftc, 5_950_000)
}

/// Base CPP and EI federal tax credits for the year, year-to-date method.
/// `PM` is the months of required contribution, `PR` the pay periods left,
/// `C` and `EI` the pay period's CPP contribution and EI premium, and `D`
/// and `D1` the year-to-date CPP contribution and EI premium, in cents.
#[allow(non_snake_case)]
pub fn K2_YTD(PM: i64, PR: i64, C: i64, D: i64, D1: i64, EI: i64) -> (r: i64)
    requires
        is_month_count(PM),
        is_period_count(PR),
        is_amount(C),
        is_amount(D),
        is_amount(D1),
        is_amount(EI),
    ensures
        r == k2_ytd_value(PM as int, PR as int, C as int, D as int, D1 as int, EI as int),
        r >= 0,
{
    proof {
        assert(0 <= (PR as int) * (C as int) <= 366 * 10_000_000_000_000) by (nonlinear_arith)
            requires
                0 <= PR <= 366,
                0 <= C <= 10_000_000_000_000,
        ;
        assert(0 <= (PR as int) * (EI as int) <= 366 * 10_000_000_000_000) by (nonlinear_arith)
            requires
                0 <= PR <= 366,
                0 <= EI <= 10_000_000_000_000,
        ;
    }
    let cpp_ftc1: i128 = if PM == 12 {
        (v2025::CPP_MAX_CONTRIBUTIONS as i128) * 595
    } else {
        0
    };
    proof {
        lemma_prorate_by_months(v2025::CPP_MAX_CONTRIBUTIONS * 595, PM as int);
    }
    let cpp_ftc2: i128 = 495 * ((D as i128) + (PR as i128) * (C as i128));
    let chosen: i128 = if cpp_ftc1 > cpp_ftc2 {
        cpp_ftc2
    } else {
        cpp_ftc1
    };
    let ei_annualized: i128 = (D1 as i128) + (PR as i128) * (EI as i128);
    let ei_ftc: i128 = if ei_annualized > (v2025::EI_MAX_CONTRIBUTIONS as i128) {
        v2025::EI_MAX_CONTRIBUTIONS as i128
    } else {
        ei_annualized
    };
    let num: i128 = 1_500 * chosen + 892_500 * ei_ftc;
    let rounded: i128 = round_ratio(num, 5_950_000);
    rounded as i64
}

/// Other federal non-refundable tax credits `K3`, prorated onto the year:
/// the year's `P` pay periods' worth of the amount spread over the `PR` pay
/// periods left.  A zero `PR` would divide by zero and is refused.
#[allow(non_snake_case)]
pub fn K3(P: i64, PR: i64, K3_amount: i64) -> (r: Result<i64, TaxError>)
    requires
        is_period_count(P),
        is_period_count(PR),
        is_amount(K3_amount),
    ensures
        r is Err <==> PR == 0,
        r matches Ok(v) ==> v == round_half_away(P * K3_amount, PR as int),
        r matches Ok(v) ==> v >= 0,
        r matches Err(e) ==> e == TaxError::Precondition,
{
    if PR == 0 {
        Err(TaxError::Precondition)
    } else {
        proof {
            assert(0 <= (P as int) * (K3_amount as int) <= 366 * 10_000_000_000_000)
                by (nonlinear_arith)
                requires
                    0 <= P <= 366,
                    0 <= K3_amount <= 10_000_000_000_000,
            ;
        }
        let num: i128 = (P as i128) * (K3_amount as i128);
        let rounded: i128 = round_ratio(num, PR as i128);
        Ok(rounded as i64)
    }
}

/// Canada-employment-amount credit: the lowest federal rate, 15%, on the
/// smaller of the annual taxable income `A` and the Canada employment
/// amount `CEA`, rounded.
#[allow(non_snake_case)]
pub fn K4(A: i64, CEA: i64) -> (r: i64)
    requires
        is_amount(A),
        is_amount(CEA),
    ensures
        r == round_half_away(
            1_500 * if A > CEA {
                CEA as int
            } else {
                A as int
            },
            10_000,
        ),
        r >= 0,
{
    let smaller: i64 = if A > CEA {
        CEA
    } else {
        A
    };
    let rounded: i128 = round_ratio(1_500 * (smaller as i128), 10_000);
    rounded as i64
}

/// The value `T1` publishes: basic federal tax `t3`, increased by 48% when
/// the employee is outside Canada or beyond any province's limits, less the
/// year's `p` pay periods' worth of the labour-sponsored funds credit `lcf`,
/// floored at zero.  The 48% surcharge puts the formula on the scale `100`.
pub open spec fn t1_value(t3: int, p: int, lcf: int, outside: bool) -> int {
    let factor: int = if outside {
        148
    } else {
        100
    };
    let num = factor * t3 - 100 * (p * lcf);
    if num < 0 {
        0
    } else {
        round_half_away(num, 100)
    }
}

/// Annual federal tax deduction, periodic method.
#[allow(non_snake_case)]
pub fn T1(T3: i64, P: i64, LCF: i64, is_outside_city_limits: bool) -> (r: i64)
    requires
        is_amount(T3),
        is_period_count(P),
        is_amount(LCF),
    ensures
        r == t1_value(T3 as int, P as int, LCF as int, is_outside_city_limits),
        r >= 0,
{
    proof {
        assert(0 <= (P as int) * (LCF as int) <= 366 * 10_000_000_000_000) by (nonlinear_arith)
            requires
                0 <= P <= 366,
                0 <= LCF <= 10_000_000_000_000,
        ;
    }
    let factor: i128 = if is_outside_city_limits {
        148
    } else {
        100
    };
    let num: i128 = factor * (T3 as i128) - 100 * ((P as i128) * (LCF as i128));
    if num < 0 {
        0
    } else {
        let rounded: i128 = round_ratio(num, 100);
        rounded as i64
    }
}

/// The value `T1_grad` publishes: as `t1_value`, but the labour-sponsored
/// funds credit is already annual and is not multiplied by the pay periods.
pub open spec fn t1_grad_value(t3: int, lcf: int, outside: bool) -> int {
    let factor: int = if outside {
        148
    } else {
        100
    };
    let num = factor * t3 - 100 * lcf;
    if num < 0 {
        0
    } else {
        round_half_away(num, 100)
    }
}

/// Annual federal tax deduction, cumulative-average method.
#[allow(non_snake_case)]
pub fn T1_grad(T3: i64, LCF: i64, is_outside_city_limits: bool) -> (r: i64)
    requires
        is_amount(T3),
        is_amount(LCF),
    ensures
        r == t1_grad_value(T3 as int, LCF as int, is_outside_city_limits),
        r >= 0,
{
    let factor: i128 = if is_outside_city_limits {
        148
    } else {
        100
    };
    let num: i128 = factor * (T3 as i128) - 100 * (LCF as i128);
    if num < 0 {
        0
    } else {
        let rounded: i128 = round_ratio(num, 100);
        rounded as i64
    }
}

/// Federal labour-sponsored funds tax credit.  As coded, when 15% of the
/// acquisition amount falls below the $750 cap the formula publishes the
/// raw acquisition amount itself (not the 15% credit); at or past the cap it
/// publishes the $750 cap.  The switch sits at an acquisition of $5,000.
#[allow(non_snake_case)]
pub fn LCF(acquisition_pay_loss: i64) -> (r: i64)
    requires
        is_amount(acquisition_pay_loss),
    ensures
        r == if acquisition_pay_loss < 500_000 {
            acquisition_pay_loss as int
        } else {
            75_000
        },
        r >= 0,
{
    if acquisition_pay_loss < 500_000 {
        acquisition_pay_loss
    } else {
        75_000
    }
}

} // verus!
