//! Per-pay-period Canadian income-tax withholding, following the CRA's
//! published payroll-deduction formulas: basic personal amount, CPP and EI
//! contributions, the federal and provincial credit chains, and the periodic
//! and cumulative-average pay-period calculations.
//!
//! Every monetary quantity is an exact amount of cents held in an `i64`, and
//! every tax rate is an exact integer number of ten-thousandths, so each
//! formula is a rational function of its inputs.  A published amount is
//! rounded to the nearest cent, half away from zero, at the boundary of the
//! formula that publishes it, and each function's contract states the exact
//! rational it rounds.

pub mod basic_personal_income;
pub mod errors;
pub mod federal_income_tax;
pub mod income_tax;
pub mod money;
pub mod other_deductions;
pub mod provincial_income_tax;
pub mod rounding;
pub mod year;
