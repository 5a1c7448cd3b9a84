//! Basic personal amount and annual taxable income.
//!
//! The basic personal amount (BPA) is the non-refundable credit base every
//! individual can claim: the full minimum amount at or below a lower net
//! income threshold, the smaller maximum amount above an upper threshold,
//! and a linear phase-out on the band between the two.

use crate::errors::TaxError;
use crate::money::{is_amount, is_period_count};
use crate::rounding::{
    lemma_round_half_away_exact, lemma_round_half_away_monotonic, round_half_away, round_ratio,
};
use crate::year::v2025;
use vstd::arithmetic::div_mod::lemma_div_nonincreasing;
use vstd::prelude::*;

verus! {

/// The basic personal amount owed at net income `ni` (cents): the minimum
/// basic amount up to the lower threshold, a linear phase-out over the band
/// between the thresholds, and the maximum basic amount past the upper
/// threshold.
pub open spec fn bpaf_value(ni: int) -> int {
    if ni <= v2025::INCOME_THRESHOLD_4 {
        v2025::MINIMUM_BASIC_AMT as int
    } else if ni < v2025::INCOME_THRESHOLD_5 {
        round_half_away(
            v2025::MINIMUM_BASIC_AMT * 75_532 - (ni - v2025::INCOME_THRESHOLD_4) * 1_591,
            75_532,
        )
    } else {
        v2025::MAXIMUM_BASIC_AMT as int
    }
}

/// Federal basic personal amount for net income `A + HD`.
///
/// `A` is annual taxable income and `HD` the prescribed-zone deduction, both
/// in cents.  The coded bracket conditions leave exactly one net income
/// unassigned, the upper threshold itself; that boundary gap is reported as
/// a domain error rather than papered over.
#[allow(non_snake_case)]
pub fn BPAF(A: i64, HD: i64) -> (r: Result<i64, TaxError>)
    requires
        is_amount(A),
        is_amount(HD),
    ensures
        r is Err <==> A + HD == v2025::INCOME_THRESHOLD_5,
        r matches Ok(v) ==> v == bpaf_value(A + HD),
        r matches Err(e) ==> e == TaxError::Domain,
{
    let ni: i64 = A + HD;
    if ni <= v2025::INCOME_THRESHOLD_4 {
        Ok(v2025::MINIMUM_BASIC_AMT)
    } else if ni < v2025::INCOME_THRESHOLD_5 {
        let num: i128 = (v2025::MINIMUM_BASIC_AMT as i128) * 75_532 - ((ni
            - v2025::INCOME_THRESHOLD_4) as i128) * 1_591;
        let rounded: i128 = round_ratio(num, 75_532);
        Ok(rounded as i64)
    } else if ni > v2025::INCOME_THRESHOLD_5 {
        Ok(v2025::MAXIMUM_BASIC_AMT)
    } else {
        Err(TaxError::Domain)
    }
}

/// On the phase-out band the basic personal amount stays between the maximum
/// and the minimum basic amounts.
proof fn lemma_bpaf_band_range(ni: int)
    requires
        v2025::INCOME_THRESHOLD_4 < ni < v2025::INCOME_THRESHOLD_5,
    ensures
        v2025::MAXIMUM_BASIC_AMT <= bpaf_value(ni) <= v2025::MINIMUM_BASIC_AMT,
{
    let num = v2025::MINIMUM_BASIC_AMT * 75_532 - (ni - v2025::INCOME_THRESHOLD_4) * 1_591;
    lemma_round_half_away_exact(v2025::MAXIMUM_BASIC_AMT as int, 75_532);
    lemma_round_half_away_exact(v2025::MINIMUM_BASIC_AMT as int, 75_532);
    lemma_round_half_away_monotonic(v2025::MAXIMUM_BASIC_AMT * 75_532, num, 75_532);
    lemma_round_half_away_monotonic(num, v2025::MINIMUM_BASIC_AMT * 75_532, 75_532);
}

/// The basic personal amount never increases as net income increases: the
/// minimum amount below the band, the (smaller) maximum amount above it, and
/// a monotone downward interpolation between the two on the band.
pub proof fn lemma_bpaf_non_increasing(ni1: int, ni2: int)
    requires
        ni1 <= ni2,
    ensures
        bpaf_value(ni2) <= bpaf_value(ni1),
{
    let t4 = v2025::INCOME_THRESHOLD_4 as int;
    let t5 = v2025::INCOME_THRESHOLD_5 as int;
    if t4 < ni1 < t5 {
        lemma_bpaf_band_range(ni1);
    }
    if t4 < ni2 < t5 {
        lemma_bpaf_band_range(ni2);
    }
    if t4 < ni1 < t5 && t4 < ni2 < t5 {
        lemma_round_half_away_monotonic(
            v2025::MINIMUM_BASIC_AMT * 75_532 - (ni2 - t4) * 1_591,
            v2025::MINIMUM_BASIC_AMT * 75_532 - (ni1 - t4) * 1_591,
            75_532,
        );
    }
}

/// Annual taxable income under the periodic (non-cumulative) method, and the
/// estimated tax to publish alongside it.
///
/// The first result is `P` times the pay period's net remuneration
/// (gross `I` less the registered-plan deduction `F`, pre-1997 alimony `F2`,
/// additional-CPP deduction `F5A` and union dues `U1`), less the annual
/// prescribed-zone deduction `HD` and other authorized deductions `F1`.
/// When that annual income is negative the tax estimate `T` is overridden by
/// the employee's requested extra deduction `L`; otherwise `T` is kept.
#[allow(non_snake_case)]
pub fn A(P: i64, I: i64, F: i64, F2: i64, F5A: i64, U1: i64, HD: i64, F1: i64, T: i64, L: i64) -> (r:
    (i64, i64))
    requires
        is_period_count(P),
        is_amount(I),
        is_amount(F),
        is_amount(F2),
        is_amount(F5A),
        is_amount(U1),
        is_amount(HD),
        is_amount(F1),
        is_amount(T),
        is_amount(L),
    ensures
        r.0 == P * (I - F - F2 - F5A - U1) - HD - F1,
        r.1 == if r.0 < 0 {
            L
        } else {
            T
        },
{
    let base: i128 = (I as i128) - (F as i128) - (F2 as i128) - (F5A as i128) - (U1 as i128);
    proof {
        assert((P as int) * (base as int) <= 366 * 50_000_000_000_000 && (P as int) * (
        base as int) >= -366 * 50_000_000_000_000) by (nonlinear_arith)
            requires
                0 <= P <= 366,
                -50_000_000_000_000 <= base <= 50_000_000_000_000,
        ;
    }
    let annual: i128 = (P as i128) * base - (HD as i128) - (F1 as i128);
    let annual64: i64 = annual as i64;
    if annual64 < 0 {
        (annual64, L)
    } else {
        (annual64, T)
    }
}

/// The value `A_grad` publishes: the annualized net remuneration plus
/// year-to-date non-periodic pay net of its deductions, less the annual
/// deductions, floored at zero.
pub open spec fn a_grad_value(
    s1: int,
    i: int,
    f: int,
    f1: int,
    f2: int,
    f4: int,
    f5a: int,
    f5b: int,
    u1: int,
    b1: int,
    hd: int,
) -> int {
    let a = s1 * (i - f - f2 - f5a - u1) + (b1 - f4 - f5b) - hd - f1;
    if a < 0 {
        0
    } else {
        a
    }
}

/// Annual taxable income under the cumulative-average method.
///
/// `S1` is the annualizing factor; the remuneration and deduction inputs are
/// pay-period amounts plus their year-to-date accumulations, in cents.
/// Unlike the periodic method, a negative result saturates to zero.
#[allow(non_snake_case)]
pub fn A_grad(
    S1: i64,
    I: i64,
    F: i64,
    F1: i64,
    F2: i64,
    F4: i64,
    F5A: i64,
    F5B: i64,
    U1: i64,
    B1: i64,
    HD: i64,
) -> (r: i64)
    requires
        is_period_count(S1),
        is_amount(I),
        is_amount(F),
        is_amount(F1),
        is_amount(F2),
        is_amount(F4),
        is_amount(F5A),
        is_amount(F5B),
        is_amount(U1),
        is_amount(B1),
        is_amount(HD),
    ensures
        r == a_grad_value(
            S1 as int,
            I as int,
            F as int,
            F1 as int,
            F2 as int,
            F4 as int,
            F5A as int,
            F5B as int,
            U1 as int,
            B1 as int,
            HD as int,
        ),
        r >= 0,
{
    let base: i128 = (I as i128) - (F as i128) - (F2 as i128) - (F5A as i128) - (U1 as i128);
    proof {
        assert((S1 as int) * (base as int) <= 366 * 50_000_000_000_000 && (S1 as int) * (
        base as int) >= -366 * 50_000_000_000_000) by (nonlinear_arith)
            requires
                0 <= S1 <= 366,
                -50_000_000_000_000 <= base <= 50_000_000_000_000,
        ;
    }
    let annual: i128 = (S1 as i128) * base + ((B1 as i128) - (F4 as i128) - (F5B as i128)) - (
    HD as i128) - (F1 as i128);
    if annual < 0 {
        0
    } else {
        annual as i64
    }
}

/// Annualizing factor for the cumulative-average method: the whole quotient
/// of the year's pay periods by the current pay period.  A current pay
/// period of zero leaves the factor undefined and is refused before any
/// division happens.
#[allow(non_snake_case)]
pub fn S1(total_pay_periods: i64, current_pay_period: i64) -> (r: Result<i64, TaxError>)
    requires
        is_period_count(total_pay_periods),
        is_period_count(current_pay_period),
    ensures
        r is Err <==> current_pay_period == 0,
        r matches Ok(v) ==> v == total_pay_periods as int / current_pay_period as int,
        r matches Err(e) ==> e == TaxError::Precondition,
{
    if current_pay_period == 0 {
        Err(TaxError::Precondition)
    } else {
        let q: u64 = (total_pay_periods as u64) / (current_pay_period as u64);
        proof {
            lemma_div_nonincreasing(total_pay_periods as int, current_pay_period as int);
        }
        Ok(q as i64)
    }
}

} // verus!
