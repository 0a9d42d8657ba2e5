//! Approximate-equality comparison for numeric values.
//!
//! Exact-comparison types (the integers) and tolerance-based types share one
//! interface: a pair of boolean operations, `approx_eq` and `approx_ne`, plus
//! a tolerance-parameterized variant. For integer types equality is ordinary
//! value equality; the tolerance-parameterized comparison holds when the
//! unsigned difference of the operands is strictly below the tolerance.

pub mod approx;
pub mod approx_eq;
pub mod tolerance;
