//! Canada Pension Plan and employment insurance deductions for the pay
//! period: the base contribution, the second additional contribution, the
//! year-to-date pensionable-earnings baseline and the EI premium.

use crate::errors::TaxError;
use crate::money::{
    is_amount, is_month_count, is_period_count, lemma_prorate_by_months, prorate_by_months,
};
use crate::rounding::{round_half_away, round_ratio};
use crate::year::v2025;
use vstd::prelude::*;

verus! {

/// The value `C` publishes: the greater of the months-prorated annual
/// maximum less the year-to-date contribution `d`, and the 5.95% rate on the
/// pay period's pensionable earnings less the per-period share of the
/// $3,500 basic exemption.  The rate side lives over the scale
/// `10_000 * p`, so the two sides are compared on that scale.
pub open spec fn c_value(pm: int, d: int, pi: int, p: int) -> int
    recommends
        p >= 1,
{
    let c1 = prorate_by_months(v2025::CPP_MAX_CONTRIBUTIONS as int, pm) - d;
    let rate_num = 595 * (p * pi - v2025::CPP_BASIC_EXEMPTION);
    if c1 * (10_000 * p) < rate_num {
        round_half_away(rate_num, 10_000 * p)
    } else {
        c1
    }
}

/// Canada Pension Plan contribution for the pay period.  `PM` is the months
/// of required contribution, `D` the year-to-date contribution, `PI` the pay
/// period's pensionable earnings and `P` the year's pay periods.  A zero `P`
/// would divide by zero and is refused.
#[allow(non_snake_case)]
pub fn C(PM: i64, D: i64, PI: i64, P: i64) -> (r: Result<i64, TaxError>)
    requires
        is_month_count(PM),
        is_amount(D),
        is_amount(PI),
        is_period_count(P),
    ensures
        r is Err <==> P == 0,
        r matches Ok(v) ==> v == c_value(PM as int, D as int, PI as int, P as int),
        r matches Err(e) ==> e == TaxError::Precondition,
{
    if P == 0 {
        Err(TaxError::Precondition)
    } else {
        let c1: i128 = (if PM == 12 {
            v2025::CPP_MAX_CONTRIBUTIONS as i128
        } else {
            0
        }) - (D as i128);
        proof {
            lemma_prorate_by_months(v2025::CPP_MAX_CONTRIBUTIONS as int, PM as int);
            assert(0 <= (P as int) * (PI as int) <= 366 * 10_000_000_000_000) by (nonlinear_arith)
                requires
                    0 <= P <= 366,
                    0 <= PI <= 10_000_000_000_000,
            ;
            assert(-20_000_000_000_000 * 3_660_000 <= (c1 as int) * (10_000 * (P as int))
                <= 20_000_000_000_000 * 3_660_000) by (nonlinear_arith)
                requires
                    -20_000_000_000_000 <= c1 <= 20_000_000_000_000,
                    1 <= P <= 366,
            ;
        }
        let rate_num: i128 = 595 * ((P as i128) * (PI as i128) - (v2025::CPP_BASIC_EXEMPTION
            as i128));
        if c1 * (10_000 * (P as i128)) < rate_num {
            let rounded: i128 = round_ratio(rate_num, 10_000 * (P as i128));
            Ok(rounded as i64)
        } else {
            Ok(c1 as i64)
        }
    }
}

/// The value `C2` publishes: the smaller of the months-prorated annual
/// second-additional maximum less the year-to-date contribution `d2`, and
/// the 4.00% rate on the pensionable earnings above the year-to-date
/// baseline `w`, floored at zero.  The rate side lives over the scale
/// `10_000`.
pub open spec fn c2_value(pm: int, d2: int, pi_ytd: int, pi: int, w: int) -> int {
    let c21 = prorate_by_months(v2025::CPP2_MAX_CONTRIBUTIONS as int, pm) - d2;
    let rate_num = 400 * (pi_ytd + pi - w);
    let chosen = if c21 * 10_000 < rate_num {
        c21 * 10_000
    } else {
        rate_num
    };
    if chosen < 0 {
        0
    } else {
        round_half_away(chosen, 10_000)
    }
}

/// Second additional Canada Pension Plan contribution for the pay period.
/// `PM` is the months of required contribution, `D2` the year-to-date
/// second-additional contribution, `PI_YTD` and `PI` the year-to-date and
/// current pensionable earnings, and `W` the year-to-date
/// pensionable-earnings baseline.
#[allow(non_snake_case)]
pub fn C2(PM: i64, D2: i64, PI_YTD: i64, PI: i64, W: i64) -> (r: i64)
    requires
        is_month_count(PM),
        is_amount(D2),
        is_amount(PI_YTD),
        is_amount(PI),
        is_amount(W),
    ensures
        r == c2_value(PM as int, D2 as int, PI_YTD as int, PI as int, W as int),
        r >= 0,
{
    let c21: i128 = (if PM == 12 {
        v2025::CPP2_MAX_CONTRIBUTIONS as i128
    } else {
        0
    }) - (D2 as i128);
    proof {
        lemma_prorate_by_months(v2025::CPP2_MAX_CONTRIBUTIONS as int, PM as int);
    }
    let rate_num: i128 = 400 * ((PI_YTD as i128) + (PI as i128) - (W as i128));
    let chosen: i128 = if c21 * 10_000 < rate_num {
        c21 * 10_000
    } else {
        rate_num
    };
    if chosen < 0 {
        0
    } else {
        let rounded: i128 = round_ratio(chosen, 10_000);
        rounded as i64
    }
}

/// Year-to-date pensionable-earnings baseline: the greater of the
/// months-prorated year's maximum pensionable earnings `YMPE` and the
/// actual year-to-date pensionable earnings `PI_YTD`, in cents.
#[allow(non_snake_case)]
pub fn W(PI_YTD: i64, YMPE: i64, PM: i64) -> (r: i64)
    requires
        is_amount(PI_YTD),
        is_amount(YMPE),
        is_month_count(PM),
    ensures
        r == if prorate_by_months(YMPE as int, PM as int) > PI_YTD {
            prorate_by_months(YMPE as int, PM as int)
        } else {
            PI_YTD as int
        },
        r >= 0,
{
    let w1: i64 = if PM == 12 {
        YMPE
    } else {
        0
    };
    proof {
        lemma_prorate_by_months(YMPE as int, PM as int);
    }
    if w1 > PI_YTD {
        w1
    } else {
        PI_YTD
    }
}

/// The value `EI` publishes: the smaller of the annual EI maximum less the
/// year-to-date premium `d1`, and the 1.64% premium rate on the pay
/// period's insurable earnings `ie`.  The rate side lives over the scale
/// `10_000`, so the two sides are compared on that scale.
pub open spec fn ei_value(d1: int, ie: int) -> int {
    let ei1 = v2025::EI_MAX_CONTRIBUTIONS - d1;
    if ei1 * 10_000 < 164 * ie {
        ei1
    } else {
        round_half_away(164 * ie, 10_000)
    }
}

/// Employment insurance premium for the pay period.  `D1` is the
/// year-to-date premium and `IE` the insurable earnings, in cents.
#[allow(non_snake_case)]
pub fn EI(D1: i64, IE: i64) -> (r: i64)
    requires
        is_amount(D1),
        is_amount(IE),
    ensures
        r == ei_value(D1 as int, IE as int),
{
    let ei1: i128 = (v2025::EI_MAX_CONTRIBUTIONS as i128) - (D1 as i128);
    let rate_num: i128 = 164 * (IE as i128);
    if ei1 * 10_000 < rate_num {
        ei1 as i64
    } else {
        let rounded: i128 = round_ratio(rate_num, 10_000);
        rounded as i64
    }
}

} // verus!
