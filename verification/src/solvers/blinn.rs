//! Closed-form quadratic and cubic roots in homogeneous coordinates.
//!
//! The quadratic solver halves the middle coefficient, forms the
//! discriminant with a fused multiply-add, and picks one of three
//! algebraically equal homogeneous formulas by the sign of the halved
//! coefficient, so that no branch subtracts two nearly equal quantities.
//! The cubic solver normalizes to depressed form and splits on the sign of
//! a discriminant-like quantity: three real roots through trigonometry,
//! a double root through a signed square root, or one real root through
//! two cube roots. Empty slots hold the scalar's not-a-number sentinel.
//!
//! Every contract below pins the returned slots to the model of the exact
//! operation chain performed, so equal inputs always give equal outputs,
//! and the no-real-roots branch provably fills both slots with the
//! sentinel.

use vstd::prelude::*;

use crate::float::Float;
use crate::natural::Natural;
use crate::algebra::{Field, Group, Monoid, Semiring};
use crate::polynomial::Polynomial;

verus! {

/// The closed-form solver family.
pub struct Blinn;

/// The halved middle coefficient `b / 2`.
pub open spec fn sp_half_mid<T: Float>(b: T) -> T {
    b.sp_div(T::sp_one().sp_add(T::sp_one()))
}

/// The quadratic discriminant `B·B - A·C`, taken in one rounding.
pub open spec fn sp_quad_disc<T: Float>(a: T, bb: T, c: T) -> T {
    bb.sp_mul_add(bb, a.sp_mul(c).sp_neg())
}

/// The homogeneous root pair the quadratic solver forms when the
/// discriminant is not negative, as `((x1, w1), (x2, w2))`.
pub open spec fn sp_quad_homogeneous<T: Float>(a: T, bb: T, c: T, e: T) -> ((T, T), (T, T)) {
    if T::sp_zero().sp_lt(bb) {
        ((c.sp_neg(), bb.sp_add(e)), (bb.sp_neg().sp_sub(e), a))
    } else if bb.sp_lt(T::sp_zero()) {
        let f = bb.sp_neg().sp_add(e);
        ((f, a), (c, f))
    } else if c.sp_abs().sp_le(a.sp_abs()) {
        let f = a.sp_neg().sp_mul(c).sp_sqrt();
        ((f, a), (f.sp_neg(), a))
    } else {
        let f = a.sp_neg().sp_mul(c).sp_sqrt();
        ((c.sp_neg(), f), (c, f))
    }
}

/// What the closed-form quadratic solver returns for coefficients
/// `(a, b, c)`: the two root slots, not-a-number when the discriminant is
/// negative.
pub open spec fn sp_blinn_quadratic<T: Float>(a: T, b: T, c: T) -> (T, T) {
    let bb = sp_half_mid(b);
    let d = sp_quad_disc(a, bb, c);
    if T::sp_zero().sp_le(d) {
        let e = d.sp_sqrt();
        let ((x1, w1), (x2, w2)) = sp_quad_homogeneous(a, bb, c, e);
        (x1.sp_div(w1), x2.sp_div(w2))
    } else {
        (T::sp_nan(), T::sp_nan())
    }
}

/// The depressed-cubic parameters `(b, c, d)` for coefficients
/// `(c0, c1, c2, c3)`, scaled by the reciprocal leading coefficient and a
/// one-third factor.
pub open spec fn sp_cubic_params<T: Float>(c0: T, c1: T, c2: T, c3: T) -> (T, T, T) {
    let a_inv = c0.sp_recip();
    let third = T::sp_one().sp_div(T::sp_one().sp_add(T::sp_one()).sp_add(T::sp_one()));
    (c1.sp_mul(third.sp_mul(a_inv)), c2.sp_mul(third.sp_mul(a_inv)), c3.sp_mul(a_inv))
}

/// What the closed-form cubic solver returns once the depressed parameters
/// `(b, c, d)` are finite.
pub open spec fn sp_cubic_resolve<T: Float>(b: T, c: T, d: T) -> (T, T, T) {
    let one = T::sp_one();
    let two = one.sp_add(one);
    let three = two.sp_add(one);
    let four = three.sp_add(one);
    let h0 = b.sp_mul(d).sp_sub(c.sp_mul(c));
    let h1 = c.sp_neg().sp_mul_add(b, d);
    let h2 = b.sp_neg().sp_mul_add(b, c);
    let h = four.sp_mul(h0).sp_mul(h2).sp_sub(h1.sp_mul(h1));
    let dp = two.sp_neg().sp_mul(b).sp_mul(h2).sp_add(h1);
    if T::sp_zero().sp_lt(h) {
        let third = one.sp_div(three);
        let t = h.sp_sqrt().sp_atan2(dp.sp_neg()).sp_mul(third);
        let (t_s, t_c) = t.sp_sin_cos();
        let ps = t_s.sp_mul(three.sp_sqrt());
        let half = one.sp_div(two);
        let r1 = half.sp_mul(t_c.sp_neg().sp_add(ps));
        let r2 = half.sp_mul(t_c.sp_neg().sp_sub(ps));
        let s = two.sp_mul(h2.sp_neg().sp_sqrt());
        (s.sp_mul_add(t_c, b.sp_neg()), s.sp_mul_add(r1, b.sp_neg()), s.sp_mul_add(
            r2,
            b.sp_neg(),
        ))
    } else if h.sp_eq_val(T::sp_zero()) {
        let s = h2.sp_neg().sp_sqrt().sp_copysign(dp);
        (s.sp_sub(b), s.sp_mul_add(two.sp_neg(), b.sp_neg()), T::sp_nan())
    } else {
        let rt = one.sp_div(four).sp_neg().sp_mul(h).sp_sqrt();
        let r = one.sp_div(two).sp_neg().sp_mul(dp);
        let s = r.sp_add(rt).sp_cbrt().sp_add(r.sp_sub(rt).sp_cbrt());
        (s.sp_sub(b), T::sp_nan(), T::sp_nan())
    }
}

/// Whether the cubic solver falls back to the quadratic on coefficients
/// `(c0, c1, c2, c3)`: some depressed parameter came out non-finite, which
/// signals a vanishing (or nearly vanishing) leading coefficient.
pub open spec fn sp_cubic_degenerate<T: Float>(c0: T, c1: T, c2: T, c3: T) -> bool {
    let (b, c, d) = sp_cubic_params(c0, c1, c2, c3);
    !(b.sp_is_finite() && c.sp_is_finite() && d.sp_is_finite())
}

/// What the closed-form cubic solver returns for coefficients
/// `(c0, c1, c2, c3)`.
pub open spec fn sp_blinn_cubic<T: Float>(c0: T, c1: T, c2: T, c3: T) -> (T, T, T) {
    if sp_cubic_degenerate(c0, c1, c2, c3) {
        let (r1, r2) = sp_blinn_quadratic(c1, c2, c3);
        (r1, r2, T::sp_nan())
    } else {
        let (b, c, d) = sp_cubic_params(c0, c1, c2, c3);
        sp_cubic_resolve(b, c, d)
    }
}

/// Root-count law, complex case: a negative discriminant yields no real
/// root, and both slots provably hold the sentinel.
pub proof fn lemma_blinn_quadratic_complex_pair<T: Float>(a: T, b: T, c: T)
    ensures
        !T::sp_zero().sp_le(sp_quad_disc(a, sp_half_mid(b), c)) ==> sp_blinn_quadratic(a, b, c)
            == (T::sp_nan(), T::sp_nan()),
{
}

/// Determinism: two runs of the closed-form cubic solver on equal
/// coefficients return equal root triples.
pub proof fn lemma_blinn_cubic_deterministic<T: Float>(
    c0: T,
    c1: T,
    c2: T,
    c3: T,
    r1: (T, T, T),
    r2: (T, T, T),
)
    requires
        r1 == sp_blinn_cubic(c0, c1, c2, c3),
        r2 == sp_blinn_cubic(c0, c1, c2, c3),
    ensures
        r1 == r2,
{
}

/// Degenerate-input law: when the cubic's depressed parameters come out
/// non-finite, the result is exactly the quadratic solver's answer on the
/// trailing coefficients, with the third slot holding the sentinel.
pub proof fn lemma_blinn_cubic_degenerate_fallback<T: Float>(c0: T, c1: T, c2: T, c3: T)
    ensures
        sp_cubic_degenerate(c0, c1, c2, c3) ==> sp_blinn_cubic(c0, c1, c2, c3) == (
            sp_blinn_quadratic(c1, c2, c3).0,
            sp_blinn_quadratic(c1, c2, c3).1,
            T::sp_nan(),
        ),
{
}

impl Blinn {
    /// Closed-form quadratic roots of `p.c[0]·x² + p.c[1]·x + p.c[2]`.
    /// Slot order is formula-determined, not sorted. A negative
    /// discriminant fills both slots with the not-a-number sentinel; a
    /// repeated root appears in this family as a duplicate, filling both
    /// slots.
    pub fn roots_quadratic<T: Float>(p: &Polynomial<T, 3>) -> (r: [T; 2])
        ensures
            (r[0], r[1]) == sp_blinn_quadratic(p.c@[0], p.c@[1], p.c@[2]),
    {
        Self::roots_quadratic_nopoly(p.c[0], p.c[1], p.c[2])
    }

    /// The quadratic solver on bare coefficients; the cubic degenerate
    /// fallback enters here.
    pub fn roots_quadratic_nopoly<T: Float>(a: T, b: T, c: T) -> (r: [T; 2])
        ensures
            (r[0], r[1]) == sp_blinn_quadratic(a, b, c),
    {
        let bb = b.div(T::one().add(T::one()));
        let d = bb.mul_add(bb, a.mul(c).neg());
        if d.ge(T::zero()) {
            let e = d.sqrt();
            let x1: T;
            let w1: T;
            let x2: T;
            let w2: T;
            if bb.gt(T::zero()) {
                x1 = c.neg();
                w1 = bb.add(e);
                x2 = bb.neg().sub(e);
                w2 = a;
            } else if bb.lt(T::zero()) {
                let f = bb.neg().add(e);
                x1 = f;
                w1 = a;
                x2 = c;
                w2 = f;
            } else if a.abs().ge(c.abs()) {
                let f = a.neg().mul(c).sqrt();
                x1 = f;
                w1 = a;
                x2 = f.neg();
                w2 = a;
            } else {
                let f = a.neg().mul(c).sqrt();
                x1 = c.neg();
                w1 = f;
                x2 = c;
                w2 = f;
            }
            [x1.div(w1), x2.div(w2)]
        } else {
            [T::nan(), T::nan()]
        }
    }

    /// Closed-form cubic roots. A near-zero leading coefficient is detected
    /// through non-finite depressed parameters and handled by the quadratic
    /// solver on the remaining coefficients, leaving the third slot empty.
    pub fn roots_cubic<T: Float>(p: &Polynomial<T, 4>) -> (r: [T; 3])
        ensures
            (r[0], r[1], r[2]) == sp_blinn_cubic(p.c@[0], p.c@[1], p.c@[2], p.c@[3]),
    {
        let one = T::one();
        let a_inv = p.c[0].recip();
        let one_third = one.div(one.add(one).add(one));
        let b = p.c[1].mul(one_third.mul(a_inv));
        let c = p.c[2].mul(one_third.mul(a_inv));
        let d = p.c[3].mul(a_inv);
        if !(b.is_finite() && c.is_finite() && d.is_finite()) {
            let qr = Self::roots_quadratic_nopoly(p.c[1], p.c[2], p.c[3]);
            return [qr[0], qr[1], T::nan()];
        }
        let two = one.add(one);
        let three = two.add(one);
        let four = three.add(one);

        let h0 = b.mul(d).sub(c.mul(c));
        let h1 = c.neg().mul_add(b, d);
        let h2 = b.neg().mul_add(b, c);

        let h = four.mul(h0).mul(h2).sub(h1.mul(h1));
        let dp = two.neg().mul(b).mul(h2).add(h1);
        if h.gt(T::zero()) {
            let t = h.sqrt().atan2(dp.neg()).mul(one.div(three));
            let (t_s, t_c) = t.sin_cos();
            let ps = t_s.mul(three.sqrt());
            let half = one.div(two);
            let r1 = half.mul(t_c.neg().add(ps));
            let r2 = half.mul(t_c.neg().sub(ps));
            let s = two.mul(h2.neg().sqrt());
            [s.mul_add(t_c, b.neg()), s.mul_add(r1, b.neg()), s.mul_add(r2, b.neg())]
        } else if h.eq_val(T::zero()) {
            let s = h2.neg().sqrt().copysign(dp);
            [s.sub(b), s.mul_add(two.neg(), b.neg()), T::nan()]
        } else {
            let rt = one.div(four).neg().mul(h).sqrt();
            let r = one.div(two).neg().mul(dp);
            let s = r.add(rt).cbrt().add(r.sub(rt).cbrt());
            [s.sub(b), T::nan(), T::nan()]
        }
    }
}

} // verus!
