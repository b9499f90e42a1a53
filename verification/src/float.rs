//! The full scalar capability the solvers consume: an ordered field with
//! square and cube roots, trigonometry, a fused multiply-add, and the
//! special values of machine arithmetic (a quiet not-a-number sentinel and
//! a machine epsilon).
//!
//! Implementations live outside this crate; the library never fixes a
//! concrete scalar. Each executable method is pinned to an uninterpreted
//! model, so everything proved here holds for any implementation whose
//! methods return what their models say — which is exactly what the
//! `ensures` clauses oblige an implementation to do.

use vstd::prelude::*;

use crate::algebra::Field;
use crate::natural::Natural;

verus! {

/// The scalar capability of the root solvers.
pub trait Float: Natural + Field {
    /// The model of `nan` for this type.
    spec fn sp_nan() -> Self;

    /// The model of `epsilon` for this type.
    spec fn sp_epsilon() -> Self;

    /// The model of `sqrt` for this type.
    spec fn sp_sqrt(self) -> Self;

    /// The model of `cbrt` for this type.
    spec fn sp_cbrt(self) -> Self;

    /// The model of `sin_cos` for this type.
    spec fn sp_sin_cos(self) -> (Self, Self);

    /// The model of `mul_add` for this type: `self * a + b` in one rounding.
    spec fn sp_mul_add(self, a: Self, b: Self) -> Self;

    /// The model of `copysign` for this type.
    spec fn sp_copysign(self, sign: Self) -> Self;

    /// The model of `signum` for this type.
    spec fn sp_signum(self) -> Self;

    /// The model of `min` for this type.
    spec fn sp_min(self, other: Self) -> Self;

    /// The model of `max` for this type.
    spec fn sp_max(self, other: Self) -> Self;

    /// The model of `is_nan` for this type.
    spec fn sp_is_nan(self) -> bool;

    /// The model of `is_finite` for this type.
    spec fn sp_is_finite(self) -> bool;

    /// The quiet sentinel this library stores in empty root slots.
    fn nan() -> (r: Self)
        ensures
            r == Self::sp_nan(),
    ;

    fn epsilon() -> (r: Self)
        ensures
            r == Self::sp_epsilon(),
    ;

    fn sqrt(self) -> (r: Self)
        ensures
            r == self.sp_sqrt(),
    ;

    fn cbrt(self) -> (r: Self)
        ensures
            r == self.sp_cbrt(),
    ;

    fn sin_cos(self) -> (r: (Self, Self))
        ensures
            r == self.sp_sin_cos(),
    ;

    fn mul_add(self, a: Self, b: Self) -> (r: Self)
        ensures
            r == self.sp_mul_add(a, b),
    ;

    fn copysign(self, sign: Self) -> (r: Self)
        ensures
            r == self.sp_copysign(sign),
    ;

    fn signum(self) -> (r: Self)
        ensures
            r == self.sp_signum(),
    ;

    fn min(self, other: Self) -> (r: Self)
        ensures
            r == self.sp_min(other),
    ;

    fn max(self, other: Self) -> (r: Self)
        ensures
            r == self.sp_max(other),
    ;

    fn is_nan(self) -> (r: bool)
        ensures
            r == self.sp_is_nan(),
    ;

    fn is_finite(self) -> (r: bool)
        ensures
            r == self.sp_is_finite(),
    ;
}

} // verus!
