//! Vectors over an abstract scalar: construction, matrix shapes, the
//! Euclidean norm chain, normalization, the planar cross product, and
//! entrywise arithmetic.

use vstd::prelude::*;

use crate::algebra::{Field, Group, Monoid, Semiring};
use crate::float::Float;
use crate::matrix::Matrix;
use crate::natural::Natural;

verus! {

#[derive(Copy, Clone, Debug, PartialEq)]
pub struct Vector<T: Float, const N: usize> {
    pub b: [T; N],
}

/// The sum of squared entries over the first `k` slots, folded onto zero
/// in ascending order.
pub open spec fn sp_sum_squares<T: Float>(b: Seq<T>, k: nat) -> T
    decreases k,
{
    if k == 0 {
        T::sp_zero()
    } else {
        sp_sum_squares(b, (k - 1) as nat).sp_add(b[k - 1].sp_powi(2))
    }
}

impl<T: Float, const N: usize> Vector<T, N> {
    /// What `magnitude` returns: the square root of the ordered sum of
    /// squared entries.
    pub open spec fn sp_magnitude(self) -> T {
        sp_sum_squares(self.b@, N as nat).sp_sqrt()
    }

    pub fn new(b: [T; N]) -> (r: Self)
        ensures
            r.b == b,
    {
        Self { b }
    }

    /// The vector as a one-row matrix.
    pub fn row(&self) -> (r: Matrix<T, N, 1>)
        ensures
            r.e@[0] == self.b,
    {
        Matrix { e: [self.b] }
    }

    /// The vector as a one-column matrix.
    pub fn column(&self) -> (r: Matrix<T, 1, N>)
        ensures
            forall|i: int| 0 <= i < N ==> #[trigger] r.e@[i]@[0] == self.b@[i],
    {
        let z = T::zero();
        let zrow = [z; 1];
        let mut e = [zrow; N];
        for i in 0..N
            invariant
                e@.len() == N,
                forall|i2: int| 0 <= i2 < i ==> #[trigger] e@[i2]@[0] == self.b@[i2],
        {
            e[i] = [self.b[i]];
        }
        Matrix { e }
    }

    /// The Euclidean norm of the vector.
    pub fn magnitude(&self) -> (r: T)
        ensures
            r == self.sp_magnitude(),
    {
        let mut acc = T::zero();
        for i in 0..N
            invariant
                acc == sp_sum_squares(self.b@, i as nat),
        {
            acc = acc.add(self.b[i].powi(2));
        }
        acc.sqrt()
    }

    /// A copy of the vector with every entry divided by the magnitude.
    pub fn normalize(&self) -> (r: Self)
        ensures
            forall|i: int|
                0 <= i < N ==> #[trigger] r.b@[i] == self.b@[i].sp_div(self.sp_magnitude()),
    {
        let mag = self.magnitude();
        let mut b = self.b;
        for i in 0..N
            invariant
                b@.len() == N,
                forall|i2: int| 0 <= i2 < i ==> #[trigger] b@[i2] == self.b@[i2].sp_div(mag),
                forall|i2: int| i <= i2 < N ==> #[trigger] b@[i2] == self.b@[i2],
                mag == self.sp_magnitude(),
        {
            b[i] = b[i].div(mag);
        }
        Self { b }
    }

    /// Entrywise vector addition.
    pub fn add(self, rhs: Vector<T, N>) -> (r: Vector<T, N>)
        ensures
            forall|i: int| 0 <= i < N ==> #[trigger] r.b@[i] == self.b@[i].sp_add(rhs.b@[i]),
    {
        let mut b = self.b;
        for i in 0..N
            invariant
                b@.len() == N,
                forall|i2: int| 0 <= i2 < i ==> #[trigger] b@[i2] == self.b@[i2].sp_add(rhs.b@[i2]),
                forall|i2: int| i <= i2 < N ==> #[trigger] b@[i2] == self.b@[i2],
        {
            b[i] = b[i].add(rhs.b[i]);
        }
        Self { b }
    }

    /// Entrywise vector subtraction.
    pub fn sub(self, rhs: Vector<T, N>) -> (r: Vector<T, N>)
        ensures
            forall|i: int| 0 <= i < N ==> #[trigger] r.b@[i] == self.b@[i].sp_sub(rhs.b@[i]),
    {
        let mut b = self.b;
        for i in 0..N
            invariant
                b@.len() == N,
                forall|i2: int| 0 <= i2 < i ==> #[trigger] b@[i2] == self.b@[i2].sp_sub(rhs.b@[i2]),
                forall|i2: int| i <= i2 < N ==> #[trigger] b@[i2] == self.b@[i2],
        {
            b[i] = b[i].sub(rhs.b[i]);
        }
        Self { b }
    }

    /// The vector scaled entrywise by `rhs`.
    pub fn mul(self, rhs: T) -> (r: Vector<T, N>)
        ensures
            forall|i: int| 0 <= i < N ==> #[trigger] r.b@[i] == self.b@[i].sp_mul(rhs),
    {
        let mut b = self.b;
        for i in 0..N
            invariant
                b@.len() == N,
                forall|i2: int| 0 <= i2 < i ==> #[trigger] b@[i2] == self.b@[i2].sp_mul(rhs),
                forall|i2: int| i <= i2 < N ==> #[trigger] b@[i2] == self.b@[i2],
        {
            b[i] = b[i].mul(rhs);
        }
        Self { b }
    }
}

impl<T: Float> Vector<T, 2> {
    /// The planar cross product `b0·r1 - b1·r0`.
    pub fn cross(&self, rhs: &Vector<T, 2>) -> (r: T)
        ensures
            r == self.b@[0].sp_mul(rhs.b@[1]).sp_sub(self.b@[1].sp_mul(rhs.b@[0])),
    {
        self.b[0].mul(rhs.b[1]).sub(self.b[1].mul(rhs.b[0]))
    }
}

} // verus!
