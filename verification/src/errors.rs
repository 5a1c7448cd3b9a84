use vstd::prelude::*;

verus! {

/// The two ways a withholding formula can refuse its inputs.
#[derive(Clone, Copy, Debug, PartialEq, Eq, Structural)]
pub enum TaxError {
    /// A domain violation: the inputs fall in no income bracket of the
    /// formula (the basic-personal-amount boundary gap).  Retrying with the
    /// same inputs fails the same way.
    Domain,
    /// A caller precondition violation: a pay-period count or other divisor
    /// that must be positive was zero, so the formula would divide by zero.
    Precondition,
}

} // verus!
