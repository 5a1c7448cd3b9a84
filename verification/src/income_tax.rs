//! Combining the annual federal and provincial deductions into the tax to
//! withhold for the pay period, in the periodic and the cumulative-average
//! calculation.

use crate::errors::TaxError;
use crate::money::{is_amount, is_period_count};
use crate::rounding::{
    lemma_round_half_away_exact, lemma_round_half_away_monotonic, round_half_away, round_ratio,
};
use vstd::arithmetic::mul::lemma_mul_is_commutative;
use vstd::prelude::*;

verus! {

/// Estimated federal and provincial tax deduction for the pay period,
/// periodic method: the annual deductions `T1 + T2` spread over the year's
/// `P` pay periods, plus the employee's requested extra deduction `L`.
/// A zero `P` would divide by zero and is refused.
#[allow(non_snake_case)]
pub fn T(T1: i64, T2: i64, P: i64, L: i64) -> (r: Result<i64, TaxError>)
    requires
        is_amount(T1),
        is_amount(T2),
        is_period_count(P),
        is_amount(L),
    ensures
        r is Err <==> P == 0,
        r matches Ok(v) ==> v == round_half_away(T1 + T2 + P * L, P as int),
        r matches Ok(v) ==> v >= 0,
        r matches Err(e) ==> e == TaxError::Precondition,
{
    if P == 0 {
        Err(TaxError::Precondition)
    } else {
        proof {
            assert(0 <= (P as int) * (L as int) <= 366 * 10_000_000_000_000) by (nonlinear_arith)
                requires
                    0 <= P <= 366,
                    0 <= L <= 10_000_000_000_000,
            ;
        }
        let num: i128 = (T1 as i128) + (T2 as i128) + (P as i128) * (L as i128);
        let rounded: i128 = round_ratio(num, P as i128);
        Ok(rounded as i64)
    }
}

/// Determinism of the withholding pipeline.  Every formula's contract is an
/// equation pinning its result to a spec-level function of the inputs alone,
/// so any two results computed from identical inputs are identical; stated
/// here for the pay-period tax, the pipeline's final stage, in both its
/// periodic and its cumulative form.
pub proof fn lemma_withholding_deterministic(
    periodic_a: int,
    periodic_b: int,
    cumulative_a: int,
    cumulative_b: int,
    t1: int,
    t2: int,
    p: int,
    m1: int,
    s1: int,
    m: int,
    l: int,
)
    requires
        periodic_a == round_half_away(t1 + t2 + p * l, p),
        periodic_b == round_half_away(t1 + t2 + p * l, p),
        cumulative_a == t_grad_value(t1, t2, m1, s1, m, l),
        cumulative_b == t_grad_value(t1, t2, m1, s1, m, l),
    ensures
        periodic_a == periodic_b,
        cumulative_a == cumulative_b,
{
}

/// The value `T_grad` publishes: the cumulative annual deductions, less the
/// year-to-date tax already deducted on non-periodic payments `m1`, spread
/// back over the annualizing factor `s1` and less the tax `m` already
/// deducted; when that average comes out negative only the requested extra
/// deduction `l` is withheld, otherwise `l` is added on top.
pub open spec fn t_grad_value(t1_grad: int, t2: int, m1: int, s1: int, m: int, l: int) -> int
    recommends
        s1 >= 1,
{
    let num = t1_grad + t2 - m1 - s1 * m;
    if num < 0 {
        l
    } else {
        round_half_away(num + s1 * l, s1)
    }
}

/// Estimated federal and provincial tax deduction for the pay period,
/// cumulative-average method.  Withholding never drops below the requested
/// extra deduction `L`.  A zero annualizing factor `S1` would divide by
/// zero and is refused.
#[allow(non_snake_case)]
pub fn T_grad(T1_grad: i64, T2: i64, M1: i64, S1: i64, M: i64, L: i64) -> (r: Result<
    i64,
    TaxError,
>)
    requires
        is_amount(T1_grad),
        is_amount(T2),
        is_amount(M1),
        is_period_count(S1),
        is_amount(M),
        is_amount(L),
    ensures
        r is Err <==> S1 == 0,
        r matches Ok(v) ==> v == t_grad_value(
            T1_grad as int,
            T2 as int,
            M1 as int,
            S1 as int,
            M as int,
            L as int,
        ),
        r matches Ok(v) ==> v >= 0 && v >= L,
        r matches Err(e) ==> e == TaxError::Precondition,
{
    if S1 == 0 {
        Err(TaxError::Precondition)
    } else {
        proof {
            assert(0 <= (S1 as int) * (M as int) <= 366 * 10_000_000_000_000) by (nonlinear_arith)
                requires
                    0 <= S1 <= 366,
                    0 <= M <= 10_000_000_000_000,
            ;
            assert((S1 as int) * (L as int) >= 1 * (L as int) && (S1 as int) * (L as int) <= 366
                * 10_000_000_000_000) by (nonlinear_arith)
                requires
                    1 <= S1 <= 366,
                    0 <= L <= 10_000_000_000_000,
            ;
        }
        let num: i128 = (T1_grad as i128) + (T2 as i128) - (M1 as i128) - (S1 as i128) * (
        M as i128);
        if num < 0 {
            Ok(L)
        } else {
            let with_extra: i128 = num + (S1 as i128) * (L as i128);
            let rounded: i128 = round_ratio(with_extra, S1 as i128);
            proof {
                lemma_mul_is_commutative(L as int, S1 as int);
                lemma_round_half_away_exact(L as int, S1 as int);
                lemma_round_half_away_monotonic(
                    (L as int) * (S1 as int),
                    with_extra as int,
                    S1 as int,
                );
            }
            Ok(rounded as i64)
        }
    }
}

} // verus!
