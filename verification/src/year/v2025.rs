use vstd::prelude::*;

verus! {

/// Net income at or below which the basic personal amount is the minimum
/// value: $177,882, in cents.
pub const INCOME_THRESHOLD_4: i64 = 17_788_200;

/// Net income above which the basic personal amount is the maximum value:
/// $253,414, in cents.
pub const INCOME_THRESHOLD_5: i64 = 25_341_400;

/// Basic personal amount granted at or below `INCOME_THRESHOLD_4`:
/// $16,129, in cents.
pub const MINIMUM_BASIC_AMT: i64 = 1_612_900;

/// Basic personal amount granted above `INCOME_THRESHOLD_5`:
/// $14,538, in cents.
pub const MAXIMUM_BASIC_AMT: i64 = 1_453_800;

/// Maximum base Canada Pension Plan contribution for the year:
/// $4,034.10, in cents.
pub const CPP_MAX_CONTRIBUTIONS: i64 = 403_410;

/// Maximum second additional Canada Pension Plan contribution for the year:
/// $396.00, in cents.
pub const CPP2_MAX_CONTRIBUTIONS: i64 = 39_600;

/// Maximum employment insurance premium for the year: $1,077.48, in cents.
pub const EI_MAX_CONTRIBUTIONS: i64 = 107_748;

/// Annual basic exemption from pensionable earnings: $3,500, in cents.
pub const CPP_BASIC_EXEMPTION: i64 = 350_000;

} // verus!
