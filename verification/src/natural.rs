//! Ordering and elementary functions over a semiring scalar.

use vstd::prelude::*;

use crate::algebra::Semiring;

verus! {

/// A semiring scalar with a (possibly partial) order and the elementary
/// functions the library's numeric code reads.
///
/// The comparison models are uninterpreted: nothing here assumes totality,
/// so a scalar with incomparable values (a not-a-number element, say) is a
/// legitimate implementation.
pub trait Natural: Semiring {
    /// The model of `lt` for this type.
    spec fn sp_lt(self, rhs: Self) -> bool;

    /// The model of `le` for this type.
    spec fn sp_le(self, rhs: Self) -> bool;

    /// The model of `eq_val` for this type.
    spec fn sp_eq_val(self, rhs: Self) -> bool;

    /// The model of `floor` for this type.
    spec fn sp_floor(self) -> Self;

    /// The model of `ceil` for this type.
    spec fn sp_ceil(self) -> Self;

    /// The model of `abs` for this type.
    spec fn sp_abs(self) -> Self;

    /// The model of `powi` for this type.
    spec fn sp_powi(self, power: i32) -> Self;

    /// The model of `sin` for this type.
    spec fn sp_sin(self) -> Self;

    /// The model of `cos` for this type.
    spec fn sp_cos(self) -> Self;

    /// The model of `tan` for this type.
    spec fn sp_tan(self) -> Self;

    /// The model of `atan2` for this type.
    spec fn sp_atan2(self, other: Self) -> Self;

    fn lt(self, rhs: Self) -> (r: bool)
        ensures
            r == self.sp_lt(rhs),
    ;

    fn le(self, rhs: Self) -> (r: bool)
        ensures
            r == self.sp_le(rhs),
    ;

    /// Value equality as the scalar defines it; distinct from structural
    /// equality, which for a partial order need not coincide.
    fn eq_val(self, rhs: Self) -> (r: bool)
        ensures
            r == self.sp_eq_val(rhs),
    ;

    /// `self > rhs`, defined as `rhs < self`.
    fn gt(self, rhs: Self) -> (r: bool)
        ensures
            r == rhs.sp_lt(self),
    {
        rhs.lt(self)
    }

    /// `self >= rhs`, defined as `rhs <= self`.
    fn ge(self, rhs: Self) -> (r: bool)
        ensures
            r == rhs.sp_le(self),
    {
        rhs.le(self)
    }

    fn floor(self) -> (r: Self)
        ensures
            r == self.sp_floor(),
    ;

    fn ceil(self) -> (r: Self)
        ensures
            r == self.sp_ceil(),
    ;

    fn abs(self) -> (r: Self)
        ensures
            r == self.sp_abs(),
    ;

    fn powi(self, power: i32) -> (r: Self)
        ensures
            r == self.sp_powi(power),
    ;

    fn sin(self) -> (r: Self)
        ensures
            r == self.sp_sin(),
    ;

    fn cos(self) -> (r: Self)
        ensures
            r == self.sp_cos(),
    ;

    fn tan(self) -> (r: Self)
        ensures
            r == self.sp_tan(),
    ;

    fn atan2(self, other: Self) -> (r: Self)
        ensures
            r == self.sp_atan2(other),
    ;
}

} // verus!
