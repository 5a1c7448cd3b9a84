use vstd::arithmetic::div_mod::{
    lemma_div_is_ordered, lemma_div_pos_is_pos, lemma_fundamental_div_mod_converse,
};
use vstd::arithmetic::mul::{lemma_mul_inequality, lemma_mul_is_commutative};
use vstd::prelude::*;

verus! {

/// Largest numerator `round_ratio` accepts.  Every formula's numerator is a
/// product of a few amounts bounded by `money::MAX_AMOUNT`, a pay-period
/// count and a rate, which stays far below this.
pub const MAX_NUMERATOR: i128 = 1_000_000_000_000_000_000_000_000_000_000;

/// Largest denominator `round_ratio` accepts.  The formulas' denominators
/// are rate scales, pay-period counts and amounts, all below this.
pub const MAX_DENOMINATOR: i128 = 100_000_000_000_000;

/// `num / den` rounded to the nearest integer, ties away from zero.
/// This is the rounding the formulas apply to a monetary value, in cents,
/// at its publication boundary.
pub open spec fn round_half_away(num: int, den: int) -> int
    recommends
        den >= 1,
{
    if num >= 0 {
        (2 * num + den) / (2 * den)
    } else {
        -((2 * (-num) + den) / (2 * den))
    }
}

/// For a nonnegative numerator the rounded quotient lies between 0 and the
/// numerator itself.
proof fn lemma_half_up_bounds(num: int, den: int)
    requires
        num >= 0,
        den >= 1,
    ensures
        0 <= (2 * num + den) / (2 * den) <= num,
{
    lemma_div_pos_is_pos(2 * num + den, 2 * den);
    lemma_mul_is_commutative(num, 2 * den);
    lemma_fundamental_div_mod_converse(2 * den * num + 2 * den - 1, 2 * den, num, 2 * den - 1);
    // 2 * num <= (2 * den) * num, so the numerator is at most 2*den*num + 2*den - 1
    lemma_mul_inequality(2, 2 * den, num);
    lemma_mul_is_commutative(2, num);
    lemma_mul_is_commutative(2 * den, num);
    lemma_div_is_ordered(2 * num + den, 2 * den * num + 2 * den - 1, 2 * den);
}

/// Rounding never moves a value past zero or past the unrounded numerator:
/// the result keeps the numerator's sign and its magnitude is no larger.
pub proof fn lemma_round_half_away_bounds(num: int, den: int)
    requires
        den >= 1,
    ensures
        num >= 0 ==> 0 <= round_half_away(num, den) <= num,
        num <= 0 ==> num <= round_half_away(num, den) <= 0,
{
    if num >= 0 {
        lemma_half_up_bounds(num, den);
    }
    if num <= 0 {
        lemma_half_up_bounds(-num, den);
    }
}

/// Rounding is monotone in the numerator.
pub proof fn lemma_round_half_away_monotonic(n1: int, n2: int, den: int)
    requires
        n1 <= n2,
        den >= 1,
    ensures
        round_half_away(n1, den) <= round_half_away(n2, den),
{
    if n1 >= 0 {
        lemma_div_is_ordered(2 * n1 + den, 2 * n2 + den, 2 * den);
    } else if n2 < 0 {
        lemma_div_is_ordered(2 * (-n2) + den, 2 * (-n1) + den, 2 * den);
    } else {
        lemma_round_half_away_bounds(n1, den);
        lemma_round_half_away_bounds(n2, den);
    }
}

/// A whole multiple of the denominator rounds to itself.
pub proof fn lemma_round_half_away_exact(k: int, den: int)
    requires
        den >= 1,
    ensures
        round_half_away(k * den, den) == k,
{
    if k >= 0 {
        assert(k * den >= 0) by (nonlinear_arith)
            requires
                k >= 0,
                den >= 1,
        ;
        assert(2 * (k * den) + den == k * (2 * den) + den) by (nonlinear_arith);
        lemma_fundamental_div_mod_converse(2 * (k * den) + den, 2 * den, k, den);
    } else {
        assert(k * den < 0) by (nonlinear_arith)
            requires
                k < 0,
                den >= 1,
        ;
        assert(2 * (-(k * den)) + den == (-k) * (2 * den) + den) by (nonlinear_arith);
        lemma_fundamental_div_mod_converse(2 * (-(k * den)) + den, 2 * den, -k, den);
    }
}

/// Rounds the exact rational `num / den` to the nearest whole number of
/// cents, ties away from zero.
pub fn round_ratio(num: i128, den: i128) -> (r: i128)
    requires
        1 <= den <= MAX_DENOMINATOR,
        -MAX_NUMERATOR <= num <= MAX_NUMERATOR,
    ensures
        r == round_half_away(num as int, den as int),
        num >= 0 ==> 0 <= r <= num,
        num <= 0 ==> num <= r <= 0,
{
    proof {
        lemma_round_half_away_bounds(num as int, den as int);
    }
    if num >= 0 {
        let n: u128 = (2 * num + den) as u128;
        let d: u128 = (2 * den) as u128;
        let q: u128 = n / d;
        q as i128
    } else {
        let m: i128 = -num;
        let n: u128 = (2 * m + den) as u128;
        let d: u128 = (2 * den) as u128;
        let q: u128 = n / d;
        -(q as i128)
    }
}

} // verus!
