//! Per-tax-year constant tables.  Each year's constants are immutable and
//! versioned in a module of their own; every formula reads them from here and
//! never mutates them.

pub mod v2025;
