//! Approximate equality with an explicit tolerance.
//!
//! `approx_eq_tolerance` computes the unsigned difference of its operands by
//! ordering-aware subtraction (the larger minus the smaller, so no unsigned
//! operand can underflow) and holds exactly when that difference is strictly
//! less than the tolerance. Signed types take the difference in a wider
//! integer type, because the gap between their extremes exceeds their own
//! maximum; the comparison against the tolerance is unchanged by the
//! widening. Integer types take exact equality as their
//! zero-argument entry point `approx_eq`: a tolerance of zero would admit no
//! pair under the strict bound, while exact equality is what a discrete type
//! means by "approximately equal".
//!
//! A negative tolerance is accepted, not rejected: the strict bound then
//! fails for every pair, so everything compares approximately not equal
//! under it (exact equality via `approx_eq` is unaffected).

use vstd::prelude::*;
use crate::tolerance::exact_eq;
use crate::tolerance::within_tolerance;

verus! {

/// Comparison of two values of one numeric type under a caller-supplied
/// tolerance, with a zero-argument default for each type.
pub trait ApproxEq: Sized {
    /// What `approx_eq`, the default comparison, means for this type.
    spec fn approx_eq_spec(&self, other: &Self) -> bool;

    /// What the tolerance-parameterized comparison means for this type.
    spec fn approx_eq_tolerance_spec(&self, other: &Self, tolerance: &Self) -> bool;

    /// Approximately equal, under the type's default tolerance.
    fn approx_eq(&self, other: &Self) -> (r: bool)
        ensures
            r == self.approx_eq_spec(other),
    ;

    /// Approximately not equal: the negation of `approx_eq`, always.
    fn approx_ne(&self, other: &Self) -> (r: bool)
        ensures
            r == !self.approx_eq_spec(other),
    ;

    /// Approximately equal under the given tolerance.
    fn approx_eq_tolerance(&self, other: &Self, tolerance: &Self) -> (r: bool)
        ensures
            r == self.approx_eq_tolerance_spec(other, tolerance),
    ;

    /// The negation of `approx_eq_tolerance`, always.
    fn approx_ne_tolerance(&self, other: &Self, tolerance: &Self) -> (r: bool)
        ensures
            r == !self.approx_eq_tolerance_spec(other, tolerance),
    ;
}

impl ApproxEq for usize {
    open spec fn approx_eq_spec(&self, other: &Self) -> bool {
        exact_eq(*self as int, *other as int)
    }

    open spec fn approx_eq_tolerance_spec(&self, other: &Self, tolerance: &Self) -> bool {
        within_tolerance(*self as int, *other as int, *tolerance as int)
    }

    fn approx_eq(&self, other: &Self) -> (r: bool)
        ensures
            r == self.approx_eq_spec(other),
    {
        *self == *other
    }

    fn approx_ne(&self, other: &Self) -> (r: bool)
        ensures
            r == !self.approx_eq_spec(other),
    {
        *self != *other
    }

    fn approx_eq_tolerance(&self, other: &Self, tolerance: &Self) -> (r: bool)
        ensures
            r == self.approx_eq_tolerance_spec(other, tolerance),
    {
        let a: usize = *self;
        let b: usize = *other;
        if a > b {
            (a - b) < *tolerance
        } else {
            (b - a) < *tolerance
        }
    }

    fn approx_ne_tolerance(&self, other: &Self, tolerance: &Self) -> (r: bool)
        ensures
            r == !self.approx_eq_tolerance_spec(other, tolerance),
    {
        !self.approx_eq_tolerance(other, tolerance)
    }
}

impl ApproxEq for u8 {
    open spec fn approx_eq_spec(&self, other: &Self) -> bool {
        exact_eq(*self as int, *other as int)
    }

    open spec fn approx_eq_tolerance_spec(&self, other: &Self, tolerance: &Self) -> bool {
        within_tolerance(*self as int, *other as int, *tolerance as int)
    }

    fn approx_eq(&self, other: &Self) -> (r: bool)
        ensures
            r == self.approx_eq_spec(other),
    {
        *self == *other
    }

    fn approx_ne(&self, other: &Self) -> (r: bool)
        ensures
            r == !self.approx_eq_spec(other),
    {
        *self != *other
    }

    fn approx_eq_tolerance(&self, other: &Self, tolerance: &Self) -> (r: bool)
        ensures
            r == self.approx_eq_tolerance_spec(other, tolerance),
    {
        let a: u8 = *self;
        let b: u8 = *other;
        if a > b {
            (a - b) < *tolerance
        } else {
            (b - a) < *tolerance
        }
    }

    fn approx_ne_tolerance(&self, other: &Self, tolerance: &Self) -> (r: bool)
        ensures
            r == !self.approx_eq_tolerance_spec(other, tolerance),
    {
        !self.approx_eq_tolerance(other, tolerance)
    }
}

impl ApproxEq for u16 {
    open spec fn approx_eq_spec(&self, other: &Self) -> bool {
        exact_eq(*self as int, *other as int)
    }

    open spec fn approx_eq_tolerance_spec(&self, other: &Self, tolerance: &Self) -> bool {
        within_tolerance(*self as int, *other as int, *tolerance as int)
    }

    fn approx_eq(&self, other: &Self) -> (r: bool)
        ensures
            r == self.approx_eq_spec(other),
    {
        *self == *other
    }

    fn approx_ne(&self, other: &Self) -> (r: bool)
        ensures
            r == !self.approx_eq_spec(other),
    {
        *self != *other
    }

    fn approx_eq_tolerance(&self, other: &Self, tolerance: &Self) -> (r: bool)
        ensures
            r == self.approx_eq_tolerance_spec(other, tolerance),
    {
        let a: u16 = *self;
        let b: u16 = *other;
        if a > b {
            (a - b) < *tolerance
        } else {
            (b - a) < *tolerance
        }
    }

    fn approx_ne_tolerance(&self, other: &Self, tolerance: &Self) -> (r: bool)
        ensures
            r == !self.approx_eq_tolerance_spec(other, tolerance),
    {
        !self.approx_eq_tolerance(other, tolerance)
    }
}

impl ApproxEq for u32 {
    open spec fn approx_eq_spec(&self, other: &Self) -> bool {
        exact_eq(*self as int, *other as int)
    }

    open spec fn approx_eq_tolerance_spec(&self, other: &Self, tolerance: &Self) -> bool {
        within_tolerance(*self as int, *other as int, *tolerance as int)
    }

    fn approx_eq(&self, other: &Self) -> (r: bool)
        ensures
            r == self.approx_eq_spec(other),
    {
        *self == *other
    }

    fn approx_ne(&self, other: &Self) -> (r: bool)
        ensures
            r == !self.approx_eq_spec(other),
    {
        *self != *other
    }

    fn approx_eq_tolerance(&self, other: &Self, tolerance: &Self) -> (r: bool)
        ensures
            r == self.approx_eq_tolerance_spec(other, tolerance),
    {
        let a: u32 = *self;
        let b: u32 = *other;
        if a > b {
            (a - b) < *tolerance
        } else {
            (b - a) < *tolerance
        }
    }

    fn approx_ne_tolerance(&self, other: &Self, tolerance: &Self) -> (r: bool)
        ensures
            r == !self.approx_eq_tolerance_spec(other, tolerance),
    {
        !self.approx_eq_tolerance(other, tolerance)
    }
}

impl ApproxEq for u64 {
    open spec fn approx_eq_spec(&self, other: &Self) -> bool {
        exact_eq(*self as int, *other as int)
    }

    open spec fn approx_eq_tolerance_spec(&self, other: &Self, tolerance: &Self) -> bool {
        within_tolerance(*self as int, *other as int, *tolerance as int)
    }

    fn approx_eq(&self, other: &Self) -> (r: bool)
        ensures
            r == self.approx_eq_spec(other),
    {
        *self == *other
    }

    fn approx_ne(&self, other: &Self) -> (r: bool)
        ensures
            r == !self.approx_eq_spec(other),
    {
        *self != *other
    }

    fn approx_eq_tolerance(&self, other: &Self, tolerance: &Self) -> (r: bool)
        ensures
            r == self.approx_eq_tolerance_spec(other, tolerance),
    {
        let a: u64 = *self;
        let b: u64 = *other;
        if a > b {
            (a - b) < *tolerance
        } else {
            (b - a) < *tolerance
        }
    }

    fn approx_ne_tolerance(&self, other: &Self, tolerance: &Self) -> (r: bool)
        ensures
            r == !self.approx_eq_tolerance_spec(other, tolerance),
    {
        !self.approx_eq_tolerance(other, tolerance)
    }
}

impl ApproxEq for isize {
    open spec fn approx_eq_spec(&self, other: &Self) -> bool {
        exact_eq(*self as int, *other as int)
    }

    open spec fn approx_eq_tolerance_spec(&self, other: &Self, tolerance: &Self) -> bool {
        within_tolerance(*self as int, *other as int, *tolerance as int)
    }

    fn approx_eq(&self, other: &Self) -> (r: bool)
        ensures
            r == self.approx_eq_spec(other),
    {
        *self == *other
    }

    fn approx_ne(&self, other: &Self) -> (r: bool)
        ensures
            r == !self.approx_eq_spec(other),
    {
        *self != *other
    }

    fn approx_eq_tolerance(&self, other: &Self, tolerance: &Self) -> (r: bool)
        ensures
            r == self.approx_eq_tolerance_spec(other, tolerance),
    {
        let a: i128 = *self as i128;
        let b: i128 = *other as i128;
        let t: i128 = *tolerance as i128;
        if a > b {
            (a - b) < t
        } else {
            (b - a) < t
        }
    }

    fn approx_ne_tolerance(&self, other: &Self, tolerance: &Self) -> (r: bool)
        ensures
            r == !self.approx_eq_tolerance_spec(other, tolerance),
    {
        !self.approx_eq_tolerance(other, tolerance)
    }
}

impl ApproxEq for i8 {
    open spec fn approx_eq_spec(&self, other: &Self) -> bool {
        exact_eq(*self as int, *other as int)
    }

    open spec fn approx_eq_tolerance_spec(&self, other: &Self, tolerance: &Self) -> bool {
        within_tolerance(*self as int, *other as int, *tolerance as int)
    }

    fn approx_eq(&self, other: &Self) -> (r: bool)
        ensures
            r == self.approx_eq_spec(other),
    {
        *self == *other
    }

    fn approx_ne(&self, other: &Self) -> (r: bool)
        ensures
            r == !self.approx_eq_spec(other),
    {
        *self != *other
    }

    fn approx_eq_tolerance(&self, other: &Self, tolerance: &Self) -> (r: bool)
        ensures
            r == self.approx_eq_tolerance_spec(other, tolerance),
    {
        let a: i16 = *self as i16;
        let b: i16 = *other as i16;
        let t: i16 = *tolerance as i16;
        if a > b {
            (a - b) < t
        } else {
            (b - a) < t
        }
    }

    fn approx_ne_tolerance(&self, other: &Self, tolerance: &Self) -> (r: bool)
        ensures
            r == !self.approx_eq_tolerance_spec(other, tolerance),
    {
        !self.approx_eq_tolerance(other, tolerance)
    }
}

impl ApproxEq for i16 {
    open spec fn approx_eq_spec(&self, other: &Self) -> bool {
        exact_eq(*self as int, *other as int)
    }

    open spec fn approx_eq_tolerance_spec(&self, other: &Self, tolerance: &Self) -> bool {
        within_tolerance(*self as int, *other as int, *tolerance as int)
    }

    fn approx_eq(&self, other: &Self) -> (r: bool)
        ensures
            r == self.approx_eq_spec(other),
    {
        *self == *other
    }

    fn approx_ne(&self, other: &Self) -> (r: bool)
        ensures
            r == !self.approx_eq_spec(other),
    {
        *self != *other
    }

    fn approx_eq_tolerance(&self, other: &Self, tolerance: &Self) -> (r: bool)
        ensures
            r == self.approx_eq_tolerance_spec(other, tolerance),
    {
        let a: i32 = *self as i32;
        let b: i32 = *other as i32;
        let t: i32 = *tolerance as i32;
        if a > b {
            (a - b) < t
        } else {
            (b - a) < t
        }
    }

    fn approx_ne_tolerance(&self, other: &Self, tolerance: &Self) -> (r: bool)
        ensures
            r == !self.approx_eq_tolerance_spec(other, tolerance),
    {
        !self.approx_eq_tolerance(other, tolerance)
    }
}

impl ApproxEq for i32 {
    open spec fn approx_eq_spec(&self, other: &Self) -> bool {
        exact_eq(*self as int, *other as int)
    }

    open spec fn approx_eq_tolerance_spec(&self, other: &Self, tolerance: &Self) -> bool {
        within_tolerance(*self as int, *other as int, *tolerance as int)
    }

    fn approx_eq(&self, other: &Self) -> (r: bool)
        ensures
            r == self.approx_eq_spec(other),
    {
        *self == *other
    }

    fn approx_ne(&self, other: &Self) -> (r: bool)
        ensures
            r == !self.approx_eq_spec(other),
    {
        *self != *other
    }

    fn approx_eq_tolerance(&self, other: &Self, tolerance: &Self) -> (r: bool)
        ensures
            r == self.approx_eq_tolerance_spec(other, tolerance),
    {
        let a: i64 = *self as i64;
        let b: i64 = *other as i64;
        let t: i64 = *tolerance as i64;
        if a > b {
            (a - b) < t
        } else {
            (b - a) < t
        }
    }

    fn approx_ne_tolerance(&self, other: &Self, tolerance: &Self) -> (r: bool)
        ensures
            r == !self.approx_eq_tolerance_spec(other, tolerance),
    {
        !self.approx_eq_tolerance(other, tolerance)
    }
}

impl ApproxEq for i64 {
    open spec fn approx_eq_spec(&self, other: &Self) -> bool {
        exact_eq(*self as int, *other as int)
    }

    open spec fn approx_eq_tolerance_spec(&self, other: &Self, tolerance: &Self) -> bool {
        within_tolerance(*self as int, *other as int, *tolerance as int)
    }

    fn approx_eq(&self, other: &Self) -> (r: bool)
        ensures
            r == self.approx_eq_spec(other),
    {
        *self == *other
    }

    fn approx_ne(&self, other: &Self) -> (r: bool)
        ensures
            r == !self.approx_eq_spec(other),
    {
        *self != *other
    }

    fn approx_eq_tolerance(&self, other: &Self, tolerance: &Self) -> (r: bool)
        ensures
            r == self.approx_eq_tolerance_spec(other, tolerance),
    {
        let a: i128 = *self as i128;
        let b: i128 = *other as i128;
        let t: i128 = *tolerance as i128;
        if a > b {
            (a - b) < t
        } else {
            (b - a) < t
        }
    }

    fn approx_ne_tolerance(&self, other: &Self, tolerance: &Self) -> (r: bool)
        ensures
            r == !self.approx_eq_tolerance_spec(other, tolerance),
    {
        !self.approx_eq_tolerance(other, tolerance)
    }
}

} // verus!
