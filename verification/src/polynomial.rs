//! The polynomial entity: an immutable, fixed-size coefficient sequence,
//! highest power first, with one explicit evaluator per supported degree.
//!
//! A `Polynomial<T, N>` holds `N` coefficients and so has degree `N - 1`;
//! degrees up to four (five coefficients) are supported. Each evaluator's
//! contract pins the returned value to the model of the exact chain of
//! scalar operations the evaluator performs, in the order it performs them.
//!
//! `roots` dispatches on the coefficient count: constants and linear
//! polynomials are solved in place, quadratics go to the closed-form
//! family (slot order formula-determined, a repeated root duplicated),
//! and cubics to the iterative family (ascending order, a repeated root
//! leaving its extra slot empty). Unused slots hold the scalar's
//! not-a-number sentinel, the library's only failure channel.

use vstd::prelude::*;

use crate::algebra::{Field, Group, Monoid};
use crate::float::Float;
use crate::natural::Natural;
use crate::solvers::blinn::{sp_blinn_quadratic, Blinn};
use crate::solvers::yuksel;
use crate::solvers::yuksel::sp_yuksel_cubic;

verus! {

#[derive(Copy, Clone, Debug)]
pub struct Polynomial<T: Float, const N: usize> {
    pub c: [T; N],
}

impl<T: Float, const N: usize> Polynomial<T, N> {
    /// What `eval_quadratic` returns: `(c0·x² + c1·x) + c2` over the
    /// scalar's models.
    pub open spec fn sp_eval_quadratic(self, x: T) -> T {
        self.c@[0].sp_mul(x.sp_powi(2)).sp_add(self.c@[1].sp_mul(x)).sp_add(self.c@[2])
    }

    /// What `eval_cubic` returns.
    pub open spec fn sp_eval_cubic(self, x: T) -> T {
        self.c@[0].sp_mul(x.sp_powi(3)).sp_add(self.c@[1].sp_mul(x.sp_powi(2))).sp_add(
            self.c@[2].sp_mul(x),
        ).sp_add(self.c@[3])
    }

    /// What `eval_quartic` returns.
    pub open spec fn sp_eval_quartic(self, x: T) -> T {
        self.c@[0].sp_mul(x.sp_powi(4)).sp_add(self.c@[1].sp_mul(x.sp_powi(3))).sp_add(
            self.c@[2].sp_mul(x.sp_powi(2)),
        ).sp_add(self.c@[3].sp_mul(x)).sp_add(self.c@[4])
    }

    /// What `eval` returns, by coefficient count.
    pub open spec fn sp_eval(self, x: T) -> T
        recommends
            1 <= N <= 5,
    {
        if N == 1 {
            self.c@[0]
        } else if N == 2 {
            self.c@[0].sp_mul(x).sp_add(self.c@[1])
        } else if N == 3 {
            self.sp_eval_quadratic(x)
        } else if N == 4 {
            self.sp_eval_cubic(x)
        } else {
            self.sp_eval_quartic(x)
        }
    }

    pub fn from(c: [T; N]) -> (r: Self)
        ensures
            r.c == c,
    {
        Self { c }
    }

    pub fn new(c: [T; N]) -> (r: Self)
        ensures
            r.c == c,
    {
        Self { c }
    }

    /// Evaluate with the degree-two formula, reading the first three
    /// coefficients.
    pub fn eval_quadratic(&self, x: T) -> (r: T)
        requires
            N >= 3,
        ensures
            r == self.sp_eval_quadratic(x),
    {
        self.c[0].mul(x.powi(2)).add(self.c[1].mul(x)).add(self.c[2])
    }

    /// Evaluate with the degree-three formula, reading the first four
    /// coefficients.
    pub fn eval_cubic(&self, x: T) -> (r: T)
        requires
            N >= 4,
        ensures
            r == self.sp_eval_cubic(x),
    {
        self.c[0].mul(x.powi(3)).add(self.c[1].mul(x.powi(2))).add(self.c[2].mul(x)).add(self.c[3])
    }

    /// Evaluate with the degree-four formula, reading the first five
    /// coefficients.
    pub fn eval_quartic(&self, x: T) -> (r: T)
        requires
            N >= 5,
        ensures
            r == self.sp_eval_quartic(x),
    {
        self.c[0].mul(x.powi(4)).add(self.c[1].mul(x.powi(3))).add(self.c[2].mul(x.powi(2))).add(
            self.c[3].mul(x),
        ).add(self.c[4])
    }

    /// Evaluate the polynomial at `x` with the explicit formula for its
    /// degree. Coefficient counts above five are unsupported and excluded
    /// by contract rather than handled at run time.
    pub fn eval(&self, x: T) -> (r: T)
        requires
            1 <= N <= 5,
        ensures
            r == self.sp_eval(x),
    {
        if N == 1 {
            self.c[0]
        } else if N == 2 {
            self.c[0].mul(x).add(self.c[1])
        } else if N == 3 {
            self.eval_quadratic(x)
        } else if N == 4 {
            self.eval_cubic(x)
        } else {
            self.eval_quartic(x)
        }
    }
}

impl<T: Float> Polynomial<T, 1> {
    /// What the constant-polynomial solver puts in its single slot: zero
    /// when the constant is within tolerance of zero (every abscissa is a
    /// root; zero is reported), else the sentinel.
    pub open spec fn sp_root_constant(self, tol: T) -> T {
        if self.c@[0].sp_abs().sp_le(tol) {
            T::sp_zero()
        } else {
            T::sp_nan()
        }
    }

    /// A constant polynomial has a root exactly when the constant itself
    /// vanishes (within tolerance).
    pub fn root_constant(&self, tol: T) -> (r: [T; 1])
        ensures
            r[0] == self.sp_root_constant(tol),
    {
        if self.c[0].abs().le(tol) {
            [T::zero()]
        } else {
            [T::nan()]
        }
    }

    pub fn roots(&self, tol: T) -> (r: [T; 1])
        ensures
            r[0] == self.sp_root_constant(tol),
    {
        self.root_constant(tol)
    }
}

impl<T: Float> Polynomial<T, 2> {
    /// What the linear solver returns: the single root `-c1 / c0`.
    pub open spec fn sp_root_linear(self) -> T {
        self.c@[1].sp_neg().sp_div(self.c@[0])
    }

    /// A linear polynomial has exactly one root, at `-c1 / c0`.
    pub fn root_linear(&self, _tol: T) -> (r: [T; 1])
        ensures
            r[0] == self.sp_root_linear(),
    {
        [self.c[1].neg().div(self.c[0])]
    }

    pub fn roots(&self, tol: T) -> (r: [T; 1])
        ensures
            r[0] == self.sp_root_linear(),
    {
        self.root_linear(tol)
    }
}

impl<T: Float> Polynomial<T, 3> {
    /// Quadratic roots through the closed-form solver family; slot order
    /// is formula-determined, not sorted, and a repeated root fills both
    /// slots with the same value.
    pub fn roots(&self, _tol: T) -> (r: [T; 2])
        ensures
            (r[0], r[1]) == sp_blinn_quadratic(self.c@[0], self.c@[1], self.c@[2]),
    {
        Blinn::roots_quadratic(self)
    }
}

impl<T: Float> Polynomial<T, 4> {
    /// Cubic roots through the iterative solver family, in ascending
    /// order, sentinel-padded.
    pub fn roots(&self, tol: T) -> (r: [T; 3])
        ensures
            (r[0], r[1], r[2]) == sp_yuksel_cubic(*self, tol),
    {
        yuksel::roots_cubic(self, tol)
    }
}

impl<T: Float> Polynomial<T, 5> {
    /// No general solver is wired to this entry point; every slot holds
    /// the sentinel. Quartic roots are available from the iterative
    /// family directly.
    pub fn roots(&self, _tol: T) -> (r: [T; 4])
        ensures
            forall|i: int| 0 <= i < 4 ==> r[i] == T::sp_nan(),
    {
        [T::nan(), T::nan(), T::nan(), T::nan()]
    }
}

/// Determinism of the quadratic dispatch: two root arrays that both came
/// from the closed-form quadratic solver on equal coefficients are equal.
pub proof fn lemma_roots_quadratic_deterministic<T: Float>(p: Polynomial<T, 3>, r1: (T, T), r2: (T, T))
    requires
        r1 == sp_blinn_quadratic(p.c@[0], p.c@[1], p.c@[2]),
        r2 == sp_blinn_quadratic(p.c@[0], p.c@[1], p.c@[2]),
    ensures
        r1 == r2,
{
}

/// Determinism of the cubic dispatch: two root triples that both came
/// from the iterative cubic solver on equal coefficients and tolerance
/// are equal.
pub proof fn lemma_roots_cubic_deterministic<T: Float>(
    p: Polynomial<T, 4>,
    tol: T,
    r1: (T, T, T),
    r2: (T, T, T),
)
    requires
        r1 == sp_yuksel_cubic(p, tol),
        r2 == sp_yuksel_cubic(p, tol),
    ensures
        r1 == r2,
{
}

} // verus!
