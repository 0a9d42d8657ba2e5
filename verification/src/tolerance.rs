//! The mathematical model of the two comparison strategies.
//!
//! The exact strategy calls two values approximately equal when they are
//! equal; the tolerant strategy when their unsigned difference lies strictly
//! below a tolerance. Both are stated over mathematical integers, so that
//! every fixed-width operand type shares one definition.

use vstd::prelude::*;

verus! {

/// The unsigned difference of two mathematical integers: `a - b` when
/// `a > b`, else `b - a`. Never negative.
pub open spec fn abs_diff(a: int, b: int) -> int {
    if a > b {
        a - b
    } else {
        b - a
    }
}

/// The exact strategy: only equal values count as approximately equal.
pub open spec fn exact_eq(a: int, b: int) -> bool {
    a == b
}

/// The tolerant strategy: approximately equal when the unsigned difference
/// is strictly less than the tolerance. A difference exactly equal to the
/// tolerance does not qualify, and a zero or negative tolerance admits no
/// pair at all, not even a value against itself.
pub open spec fn within_tolerance(a: int, b: int, tolerance: int) -> bool {
    abs_diff(a, b) < tolerance
}

/// Reflexivity. A value compared against itself is exactly equal, and lies
/// within every positive tolerance; under a zero or negative tolerance the
/// strict bound rejects even a zero difference.
pub proof fn lemma_reflexive(a: int, tolerance: int)
    ensures
        exact_eq(a, a),
        within_tolerance(a, a, tolerance) == (tolerance > 0),
{
}

/// Symmetry. Both strategies are indifferent to operand order, the tolerant
/// one for every tolerance, because the difference taken is unsigned.
pub proof fn lemma_symmetric(a: int, b: int, tolerance: int)
    ensures
        exact_eq(a, b) == exact_eq(b, a),
        within_tolerance(a, b, tolerance) == within_tolerance(b, a, tolerance),
{
}

} // verus!
