//! The numeric capability that differentiable expressions and dense layers
//! are written against.

use vstd::prelude::*;

verus! {

/// The arithmetic a value type has to offer. Each operation is a function of
/// its operands: the `spec_*` functions name the results, and the executable
/// methods compute exactly those. No algebraic law is asked of them, so a
/// rounding or a wrapping type qualifies as well as an exact one.
pub trait Scalar: Copy {
    /// The additive identity.
    spec fn spec_zero() -> Self;

    /// The constant two.
    spec fn spec_two() -> Self;

    /// `self + rhs`.
    spec fn spec_plus(self, rhs: Self) -> Self;

    /// `self - rhs`.
    spec fn spec_minus(self, rhs: Self) -> Self;

    /// `self * rhs`.
    spec fn spec_times(self, rhs: Self) -> Self;

    /// `-self`.
    spec fn spec_negate(self) -> Self;

    /// The larger of `self` and `rhs`.
    spec fn spec_maximum(self, rhs: Self) -> Self;

    /// The additive identity.
    fn zero() -> (r: Self)
        ensures
            r == Self::spec_zero(),
    ;

    /// The constant two.
    fn two() -> (r: Self)
        ensures
            r == Self::spec_two(),
    ;

    /// `self + rhs`.
    fn plus(self, rhs: Self) -> (r: Self)
        ensures
            r == self.spec_plus(rhs),
    ;

    /// `self - rhs`.
    fn minus(self, rhs: Self) -> (r: Self)
        ensures
            r == self.spec_minus(rhs),
    ;

    /// `self * rhs`.
    fn times(self, rhs: Self) -> (r: Self)
        ensures
            r == self.spec_times(rhs),
    ;

    /// `-self`.
    fn negate(self) -> (r: Self)
        ensures
            r == self.spec_negate(),
    ;

    /// The larger of `self` and `rhs`.
    fn maximum(self, rhs: Self) -> (r: Self)
        ensures
            r == self.spec_maximum(rhs),
    ;
}

/// Two's-complement integers: every operation wraps on overflow.
impl Scalar for i64 {
    open spec fn spec_zero() -> i64 {
        0
    }

    open spec fn spec_two() -> i64 {
        2
    }

    open spec fn spec_plus(self, rhs: i64) -> i64 {
        vstd::wrapping::i64_specs::wrapping_add(self, rhs)
    }

    open spec fn spec_minus(self, rhs: i64) -> i64 {
        vstd::wrapping::i64_specs::wrapping_sub(self, rhs)
    }

    open spec fn spec_times(self, rhs: i64) -> i64 {
        vstd::wrapping::i64_specs::wrapping_mul(self, rhs)
    }

    open spec fn spec_negate(self) -> i64 {
        vstd::wrapping::i64_specs::wrapping_sub(0, self)
    }

    open spec fn spec_maximum(self, rhs: i64) -> i64 {
        if self >= rhs {
            self
        } else {
            rhs
        }
    }

    fn zero() -> i64 {
        0
    }

    fn two() -> i64 {
        2
    }

    fn plus(self, rhs: i64) -> i64 {
        self.wrapping_add(rhs)
    }

    fn minus(self, rhs: i64) -> i64 {
        self.wrapping_sub(rhs)
    }

    fn times(self, rhs: i64) -> i64 {
        self.wrapping_mul(rhs)
    }

    fn negate(self) -> i64 {
        0i64.wrapping_sub(self)
    }

    fn maximum(self, rhs: i64) -> i64 {
        if self >= rhs {
            self
        } else {
            rhs
        }
    }
}

} // verus!
