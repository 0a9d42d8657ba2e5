//! Approximate equality with an implicit, per-type tolerance.
//!
//! Integer types use the exact strategy: their natural tolerance is zero, so
//! `approx_eq` is ordinary equality. `approx_ne` is always the negation of
//! `approx_eq`.

use vstd::prelude::*;
use crate::tolerance::exact_eq;

verus! {

/// Comparison of two values of one numeric type against the type's own
/// notion of "close enough". No tolerance parameter is exposed here.
pub trait Approx: Sized {
    /// What approximate equality means for this type.
    spec fn approx_eq_spec(self, other: Self) -> bool;

    /// Approximately equal, under the type's implicit tolerance.
    fn approx_eq(self, other: Self) -> (r: bool)
        ensures
            r == self.approx_eq_spec(other),
    ;

    /// Approximately not equal: the negation of `approx_eq`, always.
    fn approx_ne(self, other: Self) -> (r: bool)
        ensures
            r == !self.approx_eq_spec(other),
    ;
}

impl Approx for usize {
    open spec fn approx_eq_spec(self, other: Self) -> bool {
        exact_eq(self as int, other as int)
    }

    fn approx_eq(self, other: Self) -> (r: bool)
        ensures
            r == self.approx_eq_spec(other),
    {
        self == other
    }

    fn approx_ne(self, other: Self) -> (r: bool)
        ensures
            r == !self.approx_eq_spec(other),
    {
        self != other
    }
}

impl Approx for u8 {
    open spec fn approx_eq_spec(self, other: Self) -> bool {
        exact_eq(self as int, other as int)
    }

    fn approx_eq(self, other: Self) -> (r: bool)
        ensures
            r == self.approx_eq_spec(other),
    {
        self == other
    }

    fn approx_ne(self, other: Self) -> (r: bool)
        ensures
            r == !self.approx_eq_spec(other),
    {
        self != other
    }
}

impl Approx for u16 {
    open spec fn approx_eq_spec(self, other: Self) -> bool {
        exact_eq(self as int, other as int)
    }

    fn approx_eq(self, other: Self) -> (r: bool)
        ensures
            r == self.approx_eq_spec(other),
    {
        self == other
    }

    fn approx_ne(self, other: Self) -> (r: bool)
        ensures
            r == !self.approx_eq_spec(other),
    {
        self != other
    }
}

impl Approx for u32 {
    open spec fn approx_eq_spec(self, other: Self) -> bool {
        exact_eq(self as int, other as int)
    }

    fn approx_eq(self, other: Self) -> (r: bool)
        ensures
            r == self.approx_eq_spec(other),
    {
        self == other
    }

    fn approx_ne(self, other: Self) -> (r: bool)
        ensures
            r == !self.approx_eq_spec(other),
    {
        self != other
    }
}

impl Approx for u64 {
    open spec fn approx_eq_spec(self, other: Self) -> bool {
        exact_eq(self as int, other as int)
    }

    fn approx_eq(self, other: Self) -> (r: bool)
        ensures
            r == self.approx_eq_spec(other),
    {
        self == other
    }

    fn approx_ne(self, other: Self) -> (r: bool)
        ensures
            r == !self.approx_eq_spec(other),
    {
        self != other
    }
}

impl Approx for isize {
    open spec fn approx_eq_spec(self, other: Self) -> bool {
        exact_eq(self as int, other as int)
    }

    fn approx_eq(self, other: Self) -> (r: bool)
        ensures
            r == self.approx_eq_spec(other),
    {
        self == other
    }

    fn approx_ne(self, other: Self) -> (r: bool)
        ensures
            r == !self.approx_eq_spec(other),
    {
        self != other
    }
}

impl Approx for i8 {
    open spec fn approx_eq_spec(self, other: Self) -> bool {
        exact_eq(self as int, other as int)
    }

    fn approx_eq(self, other: Self) -> (r: bool)
        ensures
            r == self.approx_eq_spec(other),
    {
        self == other
    }

    fn approx_ne(self, other: Self) -> (r: bool)
        ensures
            r == !self.approx_eq_spec(other),
    {
        self != other
    }
}

impl Approx for i16 {
    open spec fn approx_eq_spec(self, other: Self) -> bool {
        exact_eq(self as int, other as int)
    }

    fn approx_eq(self, other: Self) -> (r: bool)
        ensures
            r == self.approx_eq_spec(other),
    {
        self == other
    }

    fn approx_ne(self, other: Self) -> (r: bool)
        ensures
            r == !self.approx_eq_spec(other),
    {
        self != other
    }
}

impl Approx for i32 {
    open spec fn approx_eq_spec(self, other: Self) -> bool {
        exact_eq(self as int, other as int)
    }

    fn approx_eq(self, other: Self) -> (r: bool)
        ensures
            r == self.approx_eq_spec(other),
    {
        self == other
    }

    fn approx_ne(self, other: Self) -> (r: bool)
        ensures
            r == !self.approx_eq_spec(other),
    {
        self != other
    }
}

impl Approx for i64 {
    open spec fn approx_eq_spec(self, other: Self) -> bool {
        exact_eq(self as int, other as int)
    }

    fn approx_eq(self, other: Self) -> (r: bool)
        ensures
            r == self.approx_eq_spec(other),
    {
        self == other
    }

    fn approx_ne(self, other: Self) -> (r: bool)
        ensures
            r == !self.approx_eq_spec(other),
    {
        self != other
    }
}

} // verus!
