//! Ontario-only additions to the provincial tax: the surtax on basic
//! provincial tax, the health premium on taxable income, the tax reduction
//! and its dependant credit.

use crate::money::is_amount;
use crate::rounding::{
    lemma_round_half_away_exact, lemma_round_half_away_monotonic, round_half_away, round_ratio,
};
use vstd::prelude::*;

verus! {

/// The value `V1` publishes: no surtax up to $5,710 of basic provincial
/// tax, 20% of the excess over $5,710 up to $7,307, and past that an added
/// 36% of the excess over $7,307.  The rates live over the scale `10_000`.
pub open spec fn v1_value(t4: int) -> int {
    if t4 <= 571_000 {
        0
    } else if t4 < 730_700 {
        round_half_away(2_000 * (t4 - 571_000), 10_000)
    } else {
        round_half_away(2_000 * (t4 - 571_000) + 3_600 * (t4 - 730_700), 10_000)
    }
}

/// Ontario surtax on the annual basic provincial tax `T4`.
#[allow(non_snake_case)]
pub fn V1(T4: i64) -> (r: i64)
    requires
        is_amount(T4),
    ensures
        r == v1_value(T4 as int),
        r >= 0,
{
    if T4 <= 571_000 {
        0
    } else if T4 < 730_700 {
        let num: i128 = 2_000 * ((T4 as i128) - 571_000);
        let rounded: i128 = round_ratio(num, 10_000);
        rounded as i64
    } else {
        let num: i128 = 2_000 * ((T4 as i128) - 571_000) + 3_600 * ((T4 as i128) - 730_700);
        let rounded: i128 = round_ratio(num, 10_000);
        rounded as i64
    }
}

/// One bracket of the health premium: the bracket's linear formula `num`
/// (an amount of cents over the scale `10_000`), saturated at zero and
/// capped at the bracket's maximum.
pub open spec fn v2_bracket(num: int, cap: int) -> int {
    if num < 0 {
        0
    } else if num < cap * 10_000 {
        round_half_away(num, 10_000)
    } else {
        cap
    }
}

/// Publishes one bracket of the health premium: `num / 10_000` cents,
/// saturated at zero, rounded, and capped at the bracket maximum `cap`.
fn bracket_premium(num: i128, cap: i64) -> (r: i64)
    requires
        -100_000_000_000_000_000 <= num <= 100_000_000_000_000_000,
        0 <= cap <= 90_000,
    ensures
        r == v2_bracket(num as int, cap as int),
        0 <= r <= cap,
{
    if num < 0 {
        0
    } else if num < (cap as i128) * 10_000 {
        let rounded: i128 = round_ratio(num, 10_000);
        proof {
            lemma_round_half_away_monotonic(num as int, (cap as int) * 10_000, 10_000);
            lemma_round_half_away_exact(cap as int, 10_000);
        }
        rounded as i64
    } else {
        cap
    }
}

/// The value `V2` publishes: a five-bracket premium on annual taxable
/// income, each bracket a linear formula (6% or 25% of the excess over a
/// base income) saturated at zero and capped at the bracket's maximum of
/// $300, $450, $750 or $900.  An income exactly on a bracket edge belongs
/// to the bracket it opens, and no bracket ever publishes a negative
/// premium.  The rates live over the scale `10_000`.
pub open spec fn v2_value(a: int) -> int {
    if a < 2_000_000 {
        0
    } else if a < 3_600_000 {
        v2_bracket(600 * (a - 2_000_000), 30_000)
    } else if a < 4_800_000 {
        v2_bracket(300_000_000 + 600 * (a - 3_600_000), 45_000)
    } else if a < 7_200_000 {
        v2_bracket(600_000_000 + 2_500 * (a - 7_200_000), 75_000)
    } else if a < 20_000_000 {
        v2_bracket(600_000_000 + 2_500 * (a - 7_200_000), 90_000)
    } else {
        v2_bracket(750_000_000 + 2_500 * (a - 20_000_000), 90_000)
    }
}

/// Ontario health premium on the annual taxable income `A`.
#[allow(non_snake_case)]
pub fn V2(A: i64) -> (r: i64)
    requires
        is_amount(A),
    ensures
        r == v2_value(A as int),
        0 <= r <= 90_000,
{
    if A < 2_000_000 {
        0
    } else if A < 3_600_000 {
        bracket_premium(600 * ((A as i128) - 2_000_000), 30_000)
    } else if A < 4_800_000 {
        bracket_premium(300_000_000 + 600 * ((A as i128) - 3_600_000), 45_000)
    } else if A < 7_200_000 {
        bracket_premium(600_000_000 + 2_500 * ((A as i128) - 7_200_000), 75_000)
    } else if A < 20_000_000 {
        bracket_premium(600_000_000 + 2_500 * ((A as i128) - 7_200_000), 90_000)
    } else {
        bracket_premium(750_000_000 + 2_500 * ((A as i128) - 20_000_000), 90_000)
    }
}

/// The value `S` publishes: the smaller of the combined provincial tax
/// `t4 + v1` and twice the $294 base reduction plus the dependant credit
/// `y` less that combined tax, floored at zero.
pub open spec fn s_value(t4: int, v1: int, y: int) -> int {
    let s1 = t4 + v1;
    let s2 = 2 * 29_400 + y - (t4 + v1);
    if s1 < s2 {
        if s1 < 0 {
            0
        } else {
            s1
        }
    } else {
        if s2 < 0 {
            0
        } else {
            s2
        }
    }
}

/// Ontario tax reduction.  `T4` is the annual basic provincial tax, `V1`
/// the surtax and `Y` the dependant credit, in cents.
#[allow(non_snake_case)]
pub fn S(T4: i64, V1: i64, Y: i64) -> (r: i64)
    requires
        is_amount(T4),
        is_amount(V1),
        is_amount(Y),
    ensures
        r == s_value(T4 as int, V1 as int, Y as int),
        r >= 0,
{
    let s1: i128 = (T4 as i128) + (V1 as i128);
    let s2: i128 = 2 * 29_400 + (Y as i128) - ((T4 as i128) + (V1 as i128));
    if s1 < s2 {
        if s1 < 0 {
            0
        } else {
            s1 as i64
        }
    } else {
        if s2 < 0 {
            0
        } else {
            s2 as i64
        }
    }
}

/// Ontario dependant credit for the tax reduction: $544 for each disabled
/// dependant and $544 for each dependant under nineteen.
#[allow(non_snake_case)]
pub fn Y(number_of_disabled_dependants: i64, number_of_minor_dependents: i64) -> (r: i64)
    requires
        0 <= number_of_disabled_dependants <= 1_000_000,
        0 <= number_of_minor_dependents <= 1_000_000,
    ensures
        r == 54_400 * number_of_disabled_dependants + 54_400 * number_of_minor_dependents,
        r >= 0,
{
    54_400 * number_of_disabled_dependants + 54_400 * number_of_minor_dependents
}

} // verus!
