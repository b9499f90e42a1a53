//! Complex numbers over an abstract scalar.
//!
//! Only the entity and its inherent operations live here; complex
//! arithmetic beyond them is outside this library's verified core. Each
//! method's contract pins its result to the model of the exact operation
//! chain performed.

use vstd::prelude::*;

use crate::algebra::{Field, Group, Monoid, Semiring};
use crate::float::Float;
use crate::natural::Natural;

verus! {

#[derive(Debug, Clone, Copy, PartialEq, PartialOrd)]
pub struct Complex<F: Float> {
    pub re: F,
    pub im: F,
}

/// The model of the complex product, componentwise over the scalar's
/// models.
pub open spec fn sp_cmul<F: Float>(a: Complex<F>, b: Complex<F>) -> Complex<F> {
    Complex {
        re: a.re.sp_mul(b.re).sp_sub(a.im.sp_mul(b.im)),
        im: a.re.sp_mul(b.im).sp_add(a.im.sp_mul(b.re)),
    }
}

/// The model of `powi`: `k` successive products onto the complex unit.
pub open spec fn sp_cpow<F: Float>(z: Complex<F>, k: nat) -> Complex<F>
    decreases k,
{
    if k == 0 {
        Complex { re: F::sp_one(), im: F::sp_zero() }
    } else {
        sp_cmul(sp_cpow(z, (k - 1) as nat), z)
    }
}

impl<F: Float> Complex<F> {
    /// What `magnitude` returns.
    pub open spec fn sp_magnitude(self) -> F {
        self.re.sp_powi(2).sp_add(self.im.sp_powi(2)).sp_powi(2)
    }

    /// What `sqrt` returns: zero for zero, else the polar half-angle
    /// construction.
    pub open spec fn sp_csqrt(self) -> Complex<F> {
        if self.re.sp_eq_val(F::sp_zero()) && self.im.sp_eq_val(F::sp_zero()) {
            Complex { re: F::sp_zero(), im: F::sp_zero() }
        } else {
            let mdl = self.re.sp_mul(self.re).sp_add(self.im.sp_mul(self.im)).sp_sqrt();
            let arg = self.im.sp_atan2(self.re);
            let sq_mdl = mdl.sp_sqrt();
            let harg = arg.sp_div(F::sp_one().sp_add(F::sp_one()));
            Complex { re: sq_mdl.sp_mul(harg.sp_cos()), im: sq_mdl.sp_mul(harg.sp_sin()) }
        }
    }

    /// What `normalize` returns.
    pub open spec fn sp_normalize(self) -> Complex<F> {
        Complex {
            re: self.re.sp_div(self.sp_magnitude()),
            im: self.im.sp_div(self.sp_magnitude()),
        }
    }

    pub fn new(re: F, im: F) -> (r: Self)
        ensures
            r == (Complex { re, im }),
    {
        Self { re, im }
    }

    /// The squared-then-squared modulus, exactly as this library computes
    /// it.
    pub fn magnitude(&self) -> (r: F)
        ensures
            r == self.sp_magnitude(),
    {
        self.re.powi(2).add(self.im.powi(2)).powi(2)
    }

    /// The principal complex square root through polar coordinates; zero
    /// maps to zero.
    pub fn sqrt(self) -> (r: Self)
        ensures
            r == self.sp_csqrt(),
    {
        if self.re.eq_val(F::zero()) && self.im.eq_val(F::zero()) {
            Self { re: F::zero(), im: F::zero() }
        } else {
            let mdl = self.re.mul(self.re).add(self.im.mul(self.im)).sqrt();
            let arg = self.im.atan2(self.re);
            let sq_mdl = mdl.sqrt();
            let harg = arg.div(F::one().add(F::one()));
            Self { re: sq_mdl.mul(harg.cos()), im: sq_mdl.mul(harg.sin()) }
        }
    }

    /// Divide both components by the magnitude.
    pub fn normalize(&self) -> (r: Self)
        ensures
            r == self.sp_normalize(),
    {
        let mag = self.magnitude();
        Self { re: self.re.div(mag), im: self.im.div(mag) }
    }

    /// Repeated complex multiplication onto the unit; a non-positive
    /// power performs no multiplication and returns the unit.
    pub fn powi(&self, power: i32) -> (r: Self)
        ensures
            r == sp_cpow(
                *self,
                if power <= 0 {
                    0nat
                } else {
                    power as nat
                },
            ),
    {
        let mut result = Self { re: F::one(), im: F::zero() };
        let mut i: i32 = 0;
        if power <= 0 {
            return result;
        }
        while i < power
            invariant
                0 <= i <= power,
                result == sp_cpow(*self, i as nat),
            decreases power - i,
        {
            let re_new = result.re.mul(self.re).sub(result.im.mul(self.im));
            let im_new = result.re.mul(self.im).add(result.im.mul(self.re));
            result = Self { re: re_new, im: im_new };
            i = i + 1;
        }
        result
    }
}

} // verus!
