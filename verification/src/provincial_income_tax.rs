//! Annual basic provincial or territorial tax and its credit chain,
//! mirroring the federal structure with provincial constants and the lowest
//! provincial rate.

use crate::money::{
    is_amount, is_month_count, is_period_count, is_rate, lemma_prorate_by_months,
    prorate_by_months,
};
use crate::rounding::{round_half_away, round_ratio};
use crate::year::v2025;
use vstd::prelude::*;

pub mod ontario;

verus! {

/// The value `T4` publishes: the provincial rate `v` applied to the annual
/// taxable income `a`, less the provincial constant and the four provincial
/// credits, saturated at zero before rounding.  The rate lives over the
/// scale `10_000`, so the credits are brought onto that scale before
/// subtracting.
pub open spec fn t4_value(v: int, a: int, kp: int, k1p: int, k2p: int, k3p: int, k4p: int) -> int {
    let num = v * a - 10_000 * (kp + k1p + k2p + k3p + k4p);
    if num < 0 {
        0
    } else {
        round_half_away(num, 10_000)
    }
}

/// Annual basic provincial or territorial tax: the provincial rate `V` (in
/// ten-thousandths) on annual taxable income `A`, less the provincial
/// constant `KP` and the credits `K1P`..`K4P`, floored at zero.
#[allow(non_snake_case)]
pub fn T4(V: i64, A: i64, KP: i64, K1P: i64, K2P: i64, K3P: i64, K4P: i64) -> (r: i64)
    requires
        is_rate(V),
        is_amount(A),
        is_amount(KP),
        is_amount(K1P),
        is_amount(K2P),
        is_amount(K3P),
        is_amount(K4P),
    ensures
        r == t4_value(
            V as int,
            A as int,
            KP as int,
            K1P as int,
            K2P as int,
            K3P as int,
            K4P as int,
        ),
        r >= 0,
{
    proof {
        assert(0 <= (V as int) * (A as int) <= 10_000 * 10_000_000_000_000) by (nonlinear_arith)
            requires
                0 <= V <= 10_000,
                0 <= A <= 10_000_000_000_000,
        ;
    }
    let credits: i128 = (KP as i128) + (K1P as i128) + (K2P as i128) + (K3P as i128) + (
    K4P as i128);
    let num: i128 = (V as i128) * (A as i128) - 10_000 * credits;
    if num < 0 {
        0
    } else {
        let rounded: i128 = round_ratio(num, 10_000);
        rounded as i64
    }
}

/// The value `T2` publishes: the basic provincial tax `t4` plus the Ontario
/// surtax `v1` and health premium `v2`, less the tax reduction `s` and the
/// year's `p` pay periods' worth of the provincial labour-sponsored funds
/// credit `lcp`, floored at zero.
pub open spec fn t2_value(t4: int, v1: int, v2: int, s: int, p: int, lcp: int) -> int {
    let t2 = t4 + v1 + v2 - s - p * lcp;
    if t2 < 0 {
        0
    } else {
        t2
    }
}

/// Annual provincial or territorial tax deduction (except Quebec).
#[allow(non_snake_case)]
pub fn T2(T4: i64, V1: i64, V2: i64, S: i64, P: i64, LCP: i64) -> (r: i64)
    requires
        is_amount(T4),
        is_amount(V1),
        is_amount(V2),
        is_amount(S),
        is_period_count(P),
        is_amount(LCP),
    ensures
        r == t2_value(T4 as int, V1 as int, V2 as int, S as int, P as int, LCP as int),
        r >= 0,
{
    proof {
        assert(0 <= (P as int) * (LCP as int) <= 366 * 10_000_000_000_000) by (nonlinear_arith)
            requires
                0 <= P <= 366,
                0 <= LCP <= 10_000_000_000_000,
        ;
    }
    let t2: i128 = (T4 as i128) + (V1 as i128) + (V2 as i128) - (S as i128) - (P as i128) * (
    LCP as i128);
    if t2 < 0 {
        0
    } else {
        t2 as i64
    }
}

/// Provincial non-refundable personal tax credit: the lowest provincial
/// rate (in ten-thousandths) on the total claim amount `TCP` from the
/// provincial TD1 form.
#[allow(non_snake_case)]
pub fn K1P(lowest_provincial_tax_rate: i64, TCP: i64) -> (r: i64)
    requires
        is_rate(lowest_provincial_tax_rate),
        is_amount(TCP),
    ensures
        r == round_half_away(lowest_provincial_tax_rate * TCP, 10_000),
        r >= 0,
{
    proof {
        assert(0 <= (lowest_provincial_tax_rate as int) * (TCP as int) <= 10_000
            * 10_000_000_000_000) by (nonlinear_arith)
            requires
                0 <= lowest_provincial_tax_rate <= 10_000,
                0 <= TCP <= 10_000_000_000_000,
        ;
    }
    let num: i128 = (lowest_provincial_tax_rate as i128) * (TCP as i128);
    let rounded: i128 = round_ratio(num, 10_000);
    rounded as i64
}

/// The value `K2P` publishes.  The CPP side is the annualized contribution
/// `p * c` scaled by the `495 / 595` credit ratio, capped at the year's
/// maximum CPP contribution and prorated by whole months; the EI side is
/// the annualized premium capped at the year's EI maximum.  Both sides are
/// credited at the lowest provincial rate over the common scale
/// `5_950_000`.
pub open spec fn k2p_value(rate: int, p: int, pm: int, c: int, ei: int) -> int {
    let cpp_num = 495 * (p * c);
    let cpp_clamped = if cpp_num > v2025::CPP_MAX_CONTRIBUTIONS * 595 {
        v2025::CPP_MAX_CONTRIBUTIONS * 595
    } else {
        cpp_num
    };
    let cpp_prorated = prorate_by_months(cpp_clamped, pm);
    let ei_annual = p * ei;
    let ei_capped = if ei_annual > v2025::EI_MAX_CONTRIBUTIONS {
        v2025::EI_MAX_CONTRIBUTIONS as int
    } else {
        ei_annual
    };
    round_half_away(rate * (cpp_prorated + 595 * ei_capped), 5_950_000)
}

/// Provincial base CPP and EI tax credits for the year.  `P` is the year's
/// pay periods, `PM` the months of required contribution, `C` the pay
/// period's CPP contribution and `EI` its EI premium, in cents.
#[allow(non_snake_case)]
pub fn K2P(lowest_provincial_tax_rate: i64, P: i64, PM: i64, C: i64, EI: i64) -> (r: i64)
    requires
        is_rate(lowest_provincial_tax_rate),
        is_period_count(P),
        is_month_count(PM),
        is_amount(C),
        is_amount(EI),
    ensures
        r == k2p_value(
            lowest_provincial_tax_rate as int,
            P as int,
            PM as int,
            C as int,
            EI as int,
        ),
        r >= 0,
{
    proof {
        assert(0 <= (P as int) * (C as int) <= 366 * 10_000_000_000_000) by (nonlinear_arith)
            requires
                0 <= P <= 366,
                0 <= C <= 10_000_000_000_000,
        ;
        assert(0 <= (P as int) * (EI as int) <= 366 * 10_000_000_000_000) by (nonlinear_arith)
            requires
                0 <= P <= 366,
                0 <= EI <= 10_000_000_000_000,
        ;
    }
    let cpp_num: i128 = 495 * ((P as i128) * (C as i128));
    let cap: i128 = (v2025::CPP_MAX_CONTRIBUTIONS as i128) * 595;
    let cpp_clamped: i128 = if cpp_num > cap {
        cap
    } else {
        cpp_num
    };
    let cpp_prorated: i128 = if PM == 12 {
        cpp_clamped
    } else {
        0
    };
    proof {
        lemma_prorate_by_months(cpp_clamped as int, PM as int);
        assert(495 * ((P as int) * (C as int)) == 495 * (P as int) * (C as int))
            by (nonlinear_arith);
    }
    let ei_annual: i128 = (P as i128) * (EI as i128);
    let ei_capped: i128 = if ei_annual > (v2025::EI_MAX_CONTRIBUTIONS as i128) {
        v2025::EI_MAX_CONTRIBUTIONS as i128
    } else {
        ei_annual
    };
    let inner: i128 = cpp_prorated + 595 * ei_capped;
    proof {
        assert(0 <= (lowest_provincial_tax_rate as int) * (inner as int) <= 10_000
            * 1_000_000_000) by (nonlinear_arith)
            requires
                0 <= lowest_provincial_tax_rate <= 10_000,
                0 <= inner <= 1_000_000_000,
        ;
    }
    let num: i128 = (lowest_provincial_tax_rate as i128) * inner;
    let rounded: i128 = round_ratio(num, 5_950_000);
    rounded as i64
}

} // verus!
