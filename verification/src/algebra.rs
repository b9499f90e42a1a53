//! Algebraic capability traits: addition, subtraction, multiplication and
//! division, each paired with an uninterpreted model of what the operation
//! returns for the implementing type.
//!
//! The executable methods carry `ensures` clauses that tie them to their
//! models, so verified code built on these traits computes a value that is a
//! pure function of its inputs, whatever scalar type a caller supplies.

use vstd::prelude::*;

use crate::element::Element;

verus! {

/// A type with an addition operation and an additive identity element.
pub trait Monoid: Element {
    /// The model of `add` for this type.
    spec fn sp_add(self, rhs: Self) -> Self;

    /// The model of `zero` for this type.
    spec fn sp_zero() -> Self;

    fn add(self, rhs: Self) -> (r: Self)
        ensures
            r == self.sp_add(rhs),
    ;

    fn zero() -> (r: Self)
        ensures
            r == Self::sp_zero(),
    ;
}

/// A monoid with subtraction and negation.
pub trait Group: Monoid {
    /// The model of `sub` for this type.
    spec fn sp_sub(self, rhs: Self) -> Self;

    /// The model of `neg` for this type.
    spec fn sp_neg(self) -> Self;

    fn sub(self, rhs: Self) -> (r: Self)
        ensures
            r == self.sp_sub(rhs),
    ;

    fn neg(self) -> (r: Self)
        ensures
            r == self.sp_neg(),
    ;
}

/// A monoid with a multiplication operation and a multiplicative identity.
pub trait Semiring: Monoid {
    /// The model of `mul` for this type.
    spec fn sp_mul(self, rhs: Self) -> Self;

    /// The model of `one` for this type.
    spec fn sp_one() -> Self;

    fn mul(self, rhs: Self) -> (r: Self)
        ensures
            r == self.sp_mul(rhs),
    ;

    fn one() -> (r: Self)
        ensures
            r == Self::sp_one(),
    ;
}

/// A group that is also a semiring.
pub trait Ring: Group + Semiring {
}

/// A ring with division and a reciprocal.
pub trait Field: Ring {
    /// The model of `div` for this type.
    spec fn sp_div(self, rhs: Self) -> Self;

    /// The model of `recip` for this type.
    spec fn sp_recip(self) -> Self;

    fn div(self, rhs: Self) -> (r: Self)
        ensures
            r == self.sp_div(rhs),
    ;

    fn recip(self) -> (r: Self)
        ensures
            r == self.sp_recip(),
    ;
}

} // verus!
