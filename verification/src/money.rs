use vstd::arithmetic::div_mod::{lemma_basic_div, lemma_div_by_self};
use vstd::prelude::*;

verus! {

/// Largest monetary amount, in cents, that the formulas accept:
/// one hundred billion dollars.  Keeping every amount within this bound
/// keeps every intermediate product well inside `i128` and every published
/// result well inside `i64`.
pub const MAX_AMOUNT: i64 = 10_000_000_000_000;

/// Largest admissible number of pay periods in a year (daily pay).
pub const MAX_PAY_PERIODS: i64 = 366;

/// Number of months in a year; caps the months-of-contribution counts.
pub const MONTHS_PER_YEAR: i64 = 12;

/// Tax rates are integers in ten-thousandths: a rate of 1500 is 15%.
pub const RATE_SCALE: i64 = 10_000;

/// A monetary amount in cents: nonnegative and within the machine bound.
pub open spec fn is_amount(x: i64) -> bool {
    0 <= x <= MAX_AMOUNT
}

/// A tax rate in ten-thousandths, between 0% and 100%.
pub open spec fn is_rate(x: i64) -> bool {
    0 <= x <= RATE_SCALE
}

/// A count of pay periods within a year.
pub open spec fn is_period_count(x: i64) -> bool {
    0 <= x <= MAX_PAY_PERIODS
}

/// A count of months within a year.
pub open spec fn is_month_count(x: i64) -> bool {
    0 <= x <= MONTHS_PER_YEAR
}

/// `x` prorated by the whole-month ratio `pm / 12`.  The quotient truncates,
/// so any partial year of contributions prorates to zero.
pub open spec fn prorate_by_months(x: int, pm: int) -> int {
    x * (pm / 12)
}

/// Within a year the whole-month ratio is all or nothing: twelve months keep
/// `x` whole, any fewer prorate it to zero.
pub proof fn lemma_prorate_by_months(x: int, pm: int)
    requires
        0 <= pm <= 12,
    ensures
        prorate_by_months(x, pm) == if pm == 12 {
            x
        } else {
            0
        },
{
    if pm == 12 {
        lemma_div_by_self(12);
        assert(x * 1 == x);
    } else {
        lemma_basic_div(pm, 12);
        assert(x * 0 == 0);
    }
}

} // verus!
