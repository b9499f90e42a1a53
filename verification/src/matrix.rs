//! Matrices over an abstract scalar: construction, identity, addition,
//! multiplication and small determinants.
//!
//! `e` holds `N` rows of `M` entries each. The product uses the
//! few-multiplication schedules for square shapes of two, three and four
//! (seven, twenty-three and forty-nine scalar products) and a plain
//! triple loop elsewhere; either way its contract pins every entry to
//! the exact combination of scalar operations performed, so equal
//! operands give equal products.

use vstd::prelude::*;

use crate::algebra::{Group, Monoid, Semiring};
use crate::float::Float;

verus! {

#[derive(Copy, Clone, Debug, PartialEq)]
pub struct Matrix<T: Float, const M: usize, const N: usize> {
    pub e: [[T; M]; N],
}

impl<T: Float, const M: usize, const N: usize> Matrix<T, M, N> {
    /// The two-by-two determinant `e00·e11 - e01·e10`.
    pub open spec fn sp_det2(self) -> T {
        self.e@[0]@[0].sp_mul(self.e@[1]@[1]).sp_sub(self.e@[0]@[1].sp_mul(self.e@[1]@[0]))
    }

    /// The three-by-three determinant by cofactors along the first row,
    /// each product pair fused.
    pub open spec fn sp_det3(self) -> T {
        let m1 = self.e@[1]@[1].sp_mul(self.e@[2]@[0]);
        let ma1 = self.e@[1]@[0].sp_mul_add(self.e@[2]@[1], m1.sp_neg());
        let m2 = self.e@[1]@[2].sp_mul(self.e@[2]@[0]);
        let ma2 = self.e@[1]@[0].sp_mul_add(self.e@[2]@[2], m2.sp_neg());
        let m3 = self.e@[1]@[2].sp_mul(self.e@[2]@[1]);
        let ma3 = self.e@[1]@[1].sp_mul_add(self.e@[2]@[2], m3.sp_neg());
        let m4 = self.e@[0]@[2].sp_mul(ma1);
        let ma4 = self.e@[0]@[1].sp_mul_add(ma2, m4.sp_neg());
        self.e@[0]@[0].sp_mul_add(ma3, ma4.sp_neg())
    }

    /// Entry `(j, i)` of the matrix product, folded over the first `k`
    /// summands.
    pub open spec fn sp_mul_entry<const O: usize>(
        self,
        x: Matrix<T, O, M>,
        j: int,
        i: int,
        k: nat,
    ) -> T
        decreases k,
    {
        if k == 0 {
            T::sp_zero()
        } else {
            self.sp_mul_entry(x, j, i, (k - 1) as nat).sp_add(
                self.e@[j]@[k - 1].sp_mul(x.e@[k - 1]@[i]),
            )
        }
    }

    /// The rows of the matrix as a sequence of sequences, for stating
    /// whole-matrix results.
    pub open spec fn sp_rows(self) -> Seq<Seq<T>> {
        Seq::new(N as nat, |j: int| Seq::new(M as nat, |i: int| self.e@[j]@[i]))
    }

    /// The seven-product two-by-two fast product, row by row.
    pub open spec fn sp_mul2<const O: usize>(self, x: Matrix<T, O, M>) -> Seq<Seq<T>>
        recommends
            M == 2 && N == 2 && O == 2,
    {
        let m1 = self.e@[0]@[0].sp_add(self.e@[1]@[1]).sp_mul(x.e@[0]@[0].sp_add(x.e@[1]@[1]));
        let m2 = self.e@[1]@[0].sp_add(self.e@[1]@[1]).sp_mul(x.e@[0]@[0]);
        let m3 = self.e@[0]@[0].sp_mul(x.e@[0]@[1].sp_sub(x.e@[1]@[1]));
        let m4 = self.e@[1]@[1].sp_mul(x.e@[1]@[0].sp_sub(x.e@[0]@[0]));
        let m5 = self.e@[0]@[0].sp_add(self.e@[0]@[1]).sp_mul(x.e@[1]@[1]);
        let m6 = self.e@[1]@[0].sp_sub(self.e@[0]@[0]).sp_mul(x.e@[0]@[0].sp_add(x.e@[0]@[1]));
        let m7 = self.e@[0]@[1].sp_sub(self.e@[1]@[1]).sp_mul(x.e@[1]@[0].sp_add(x.e@[1]@[1]));
        seq![
            seq![
                m1.sp_add(m4).sp_sub(m5).sp_add(m7),
                m3.sp_add(m5),
            ],
            seq![
                m2.sp_add(m4),
                m1.sp_sub(m2).sp_add(m3).sp_add(m6),
            ]
        ]
    }

    /// The twenty-three-product three-by-three fast product, row by row.
    pub open spec fn sp_mul3<const O: usize>(self, x: Matrix<T, O, M>) -> Seq<Seq<T>>
        recommends
            M == 3 && N == 3 && O == 3,
    {
        let m1 = self.e@[0]@[0].sp_add(self.e@[0]@[1]).sp_add(self.e@[0]@[2]).sp_sub(self.e@[1]@[0]).sp_sub(self.e@[1]@[1]).sp_sub(self.e@[2]@[1]).sp_sub(self.e@[2]@[2]).sp_mul(x.e@[1]@[1]);
        let m2 = self.e@[0]@[0].sp_sub(self.e@[1]@[0]).sp_mul(x.e@[1]@[1].sp_sub(x.e@[0]@[1]));
        let m3 = self.e@[1]@[1].sp_mul(x.e@[0]@[0].sp_neg().sp_add(x.e@[0]@[1]).sp_add(x.e@[1]@[0]).sp_sub(x.e@[1]@[1]).sp_sub(x.e@[1]@[2]).sp_sub(x.e@[2]@[0]).sp_add(x.e@[2]@[2]));
        let m4 = self.e@[0]@[0].sp_neg().sp_add(self.e@[1]@[0]).sp_add(self.e@[1]@[1]).sp_mul(x.e@[0]@[0].sp_sub(x.e@[0]@[1]).sp_add(x.e@[1]@[1]));
        let m5 = self.e@[1]@[0].sp_add(self.e@[1]@[1]).sp_mul(x.e@[0]@[0].sp_neg().sp_add(x.e@[0]@[1]));
        let m6 = self.e@[0]@[0].sp_mul(x.e@[0]@[0]);
        let m7 = self.e@[0]@[0].sp_neg().sp_add(self.e@[2]@[0]).sp_add(self.e@[2]@[1]).sp_mul(x.e@[0]@[0].sp_sub(x.e@[0]@[2]).sp_add(x.e@[1]@[2]));
        let m8 = self.e@[0]@[0].sp_neg().sp_add(self.e@[2]@[0]).sp_mul(x.e@[0]@[2].sp_sub(x.e@[1]@[2]));
        let m9 = self.e@[2]@[0].sp_add(self.e@[2]@[1]).sp_mul(x.e@[0]@[0].sp_neg().sp_add(x.e@[0]@[2]));
        let m10 = self.e@[0]@[0].sp_add(self.e@[0]@[1]).sp_add(self.e@[0]@[2]).sp_sub(self.e@[1]@[1]).sp_sub(self.e@[1]@[2]).sp_sub(self.e@[2]@[0]).sp_sub(self.e@[2]@[1]).sp_mul(x.e@[1]@[2]);
        let m11 = self.e@[2]@[1].sp_mul(x.e@[0]@[0].sp_neg().sp_add(x.e@[0]@[2]).sp_add(x.e@[1]@[0]).sp_sub(x.e@[1]@[1]).sp_sub(x.e@[1]@[2]).sp_sub(x.e@[2]@[0]).sp_add(x.e@[2]@[1]));
        let m12 = self.e@[0]@[2].sp_neg().sp_add(self.e@[2]@[1]).sp_add(self.e@[2]@[2]).sp_mul(x.e@[1]@[1].sp_add(x.e@[2]@[0]).sp_sub(x.e@[2]@[1]));
        let m13 = self.e@[0]@[2].sp_sub(self.e@[2]@[2]).sp_mul(x.e@[1]@[1].sp_sub(x.e@[2]@[1]));
        let m14 = self.e@[0]@[2].sp_mul(x.e@[2]@[0]);
        let m15 = self.e@[2]@[1].sp_add(self.e@[2]@[2]).sp_mul(x.e@[2]@[0].sp_neg().sp_add(x.e@[2]@[1]));
        let m16 = self.e@[0]@[2].sp_neg().sp_add(self.e@[1]@[1]).sp_add(self.e@[1]@[2]).sp_mul(x.e@[1]@[2].sp_add(x.e@[2]@[0]).sp_sub(x.e@[2]@[2]));
        let m17 = self.e@[0]@[2].sp_sub(self.e@[1]@[2]).sp_mul(x.e@[1]@[2].sp_sub(x.e@[2]@[2]));
        let m18 = self.e@[1]@[1].sp_add(self.e@[1]@[2]).sp_mul(x.e@[2]@[0].sp_neg().sp_add(x.e@[2]@[2]));
        let m19 = self.e@[0]@[1].sp_mul(x.e@[1]@[0]);
        let m20 = self.e@[1]@[2].sp_mul(x.e@[2]@[1]);
        let m21 = self.e@[1]@[0].sp_mul(x.e@[0]@[2]);
        let m22 = self.e@[2]@[0].sp_mul(x.e@[0]@[1]);
        let m23 = self.e@[2]@[2].sp_mul(x.e@[2]@[2]);
        seq![
            seq![
                m6.sp_add(m14).sp_add(m19),
                m1.sp_add(m4).sp_add(m5).sp_add(m6).sp_add(m12).sp_add(m14).sp_add(m15),
                m6.sp_add(m7).sp_add(m9).sp_add(m10).sp_add(m14).sp_add(m16).sp_add(m18),
            ],
            seq![
                m2.sp_add(m3).sp_add(m4).sp_add(m6).sp_add(m14).sp_add(m16).sp_add(m17),
                m2.sp_add(m4).sp_add(m5).sp_add(m6).sp_add(m20),
                m14.sp_add(m16).sp_add(m17).sp_add(m18).sp_add(m21),
            ],
            seq![
                m6.sp_add(m7).sp_add(m8).sp_add(m11).sp_add(m12).sp_add(m13).sp_add(m14),
                m12.sp_add(m13).sp_add(m14).sp_add(m15).sp_add(m22),
                m6.sp_add(m7).sp_add(m8).sp_add(m9).sp_add(m23),
            ]
        ]
    }

    /// Row 0 of the four-by-four fast product.
    pub open spec fn sp_mul4_row0<const O: usize>(self, x: Matrix<T, O, M>) -> Seq<T>
        recommends
            M == 4 && N == 4 && O == 4,
    {
        let h1 = self.e@[0]@[0].sp_add(self.e@[2]@[0]).sp_mul(x.e@[0]@[0].sp_add(x.e@[2]@[0]));
        let h2 = self.e@[0]@[0].sp_sub(self.e@[0]@[2]).sp_add(self.e@[2]@[0]).sp_mul(x.e@[0]@[0].sp_sub(x.e@[0]@[2]).sp_add(x.e@[2]@[0]));
        let h3 = self.e@[0]@[2].sp_neg().sp_mul(x.e@[0]@[0].sp_sub(x.e@[0]@[2]).sp_add(x.e@[2]@[0]).sp_sub(x.e@[2]@[2]));
        let h5 = self.e@[2]@[0].sp_neg().sp_mul(x.e@[0]@[2].sp_neg());
        let h7 = self.e@[1]@[0].sp_neg().sp_add(self.e@[1]@[1]).sp_sub(self.e@[1]@[2]).sp_sub(self.e@[1]@[3]).sp_mul(x.e@[1]@[0].sp_neg().sp_add(x.e@[1]@[1]).sp_sub(x.e@[1]@[2]).sp_sub(x.e@[1]@[3]));
        let h8 = self.e@[1]@[0].sp_neg().sp_add(self.e@[1]@[1]).sp_sub(self.e@[1]@[2]).sp_sub(self.e@[1]@[3]).sp_sub(self.e@[3]@[0]).sp_add(self.e@[3]@[1]).sp_mul(x.e@[1]@[0].sp_neg().sp_add(x.e@[1]@[1]).sp_sub(x.e@[1]@[2]).sp_sub(x.e@[1]@[3]).sp_sub(x.e@[3]@[0]).sp_add(x.e@[3]@[1]));
        let h9 = self.e@[0]@[0].sp_sub(self.e@[0]@[2]).sp_mul(x.e@[0]@[0].sp_sub(x.e@[0]@[2]));
        let h10 = self.e@[1]@[0].sp_neg().sp_add(self.e@[1]@[1]).sp_sub(self.e@[3]@[0]).sp_add(self.e@[3]@[1]).sp_mul(x.e@[1]@[0].sp_neg().sp_add(x.e@[1]@[1]).sp_sub(x.e@[3]@[0]).sp_add(x.e@[3]@[1]));
        let h11 = self.e@[3]@[0].sp_sub(self.e@[3]@[1]).sp_mul(x.e@[1]@[2].sp_neg().sp_sub(x.e@[1]@[3]));
        let h13 = self.e@[1]@[2].sp_neg().sp_sub(self.e@[1]@[3]).sp_mul(x.e@[1]@[0].sp_neg().sp_add(x.e@[1]@[1]).sp_sub(x.e@[1]@[2]).sp_sub(x.e@[1]@[3]).sp_sub(x.e@[3]@[0]).sp_add(x.e@[3]@[1]).sp_sub(x.e@[3]@[2]).sp_sub(x.e@[3]@[3]));
        let h14 = self.e@[0]@[0].sp_sub(self.e@[0]@[1]).sp_add(self.e@[1]@[0]).sp_sub(self.e@[1]@[1]).sp_mul(x.e@[0]@[1].sp_neg().sp_sub(x.e@[0]@[3]));
        let h15 = self.e@[0]@[1].sp_neg().sp_sub(self.e@[0]@[3]).sp_mul(x.e@[1]@[0].sp_neg());
        let h16 = self.e@[0]@[1].sp_add(self.e@[0]@[3]).sp_sub(self.e@[1]@[0]).sp_add(self.e@[1]@[1]).sp_add(self.e@[1]@[2]).sp_add(self.e@[1]@[3]).sp_mul(x.e@[0]@[1].sp_add(x.e@[0]@[3]).sp_sub(x.e@[1]@[0]).sp_add(x.e@[1]@[1]).sp_add(x.e@[1]@[2]).sp_add(x.e@[1]@[3]));
        let h17 = self.e@[0]@[1].sp_add(self.e@[0]@[3]).sp_sub(self.e@[1]@[0]).sp_add(self.e@[1]@[1]).sp_add(self.e@[1]@[2]).sp_add(self.e@[1]@[3]).sp_add(self.e@[2]@[1]).sp_add(self.e@[3]@[0]).sp_sub(self.e@[3]@[1]).sp_mul(x.e@[0]@[1].sp_add(x.e@[0]@[3]).sp_sub(x.e@[1]@[0]).sp_add(x.e@[1]@[1]).sp_add(x.e@[1]@[2]).sp_add(x.e@[1]@[3]).sp_add(x.e@[2]@[1]).sp_add(x.e@[3]@[0]).sp_sub(x.e@[3]@[1]));
        let h18 = self.e@[0]@[1].sp_sub(self.e@[1]@[0]).sp_add(self.e@[1]@[1]).sp_add(self.e@[2]@[1]).sp_add(self.e@[3]@[0]).sp_sub(self.e@[3]@[1]).sp_mul(x.e@[0]@[1].sp_sub(x.e@[1]@[0]).sp_add(x.e@[1]@[1]).sp_add(x.e@[2]@[1]).sp_add(x.e@[3]@[0]).sp_sub(x.e@[3]@[1]));
        let h19 = self.e@[0]@[3].sp_add(self.e@[1]@[2]).sp_add(self.e@[1]@[3]).sp_mul(x.e@[0]@[1].sp_add(x.e@[0]@[3]).sp_sub(x.e@[1]@[0]).sp_add(x.e@[1]@[1]).sp_add(x.e@[1]@[2]).sp_add(x.e@[1]@[3]).sp_add(x.e@[2]@[1]).sp_add(x.e@[2]@[3]).sp_add(x.e@[3]@[0]).sp_sub(x.e@[3]@[1]).sp_sub(x.e@[3]@[2]).sp_sub(x.e@[3]@[3]));
        let h21 = self.e@[2]@[1].sp_add(self.e@[3]@[0]).sp_sub(self.e@[3]@[1]).sp_mul(x.e@[0]@[3].sp_add(x.e@[1]@[2]).sp_add(x.e@[1]@[3]));
        let h31 = self.e@[0]@[0].sp_sub(self.e@[0]@[1]).sp_sub(self.e@[0]@[2]).sp_sub(self.e@[0]@[3]).sp_add(self.e@[1]@[0]).sp_sub(self.e@[1]@[1]).sp_sub(self.e@[1]@[2]).sp_sub(self.e@[1]@[3]).sp_add(self.e@[2]@[0]).sp_sub(self.e@[2]@[1]).sp_sub(self.e@[2]@[2]).sp_sub(self.e@[2]@[3]).sp_sub(self.e@[3]@[0]).sp_add(self.e@[3]@[1]).sp_add(self.e@[3]@[2]).sp_add(self.e@[3]@[3]).sp_mul(x.e@[0]@[3]);
        let h33 = self.e@[0]@[3].sp_mul(x.e@[1]@[0].sp_neg().sp_add(x.e@[3]@[0]));
        let h34 = self.e@[0]@[3].sp_sub(self.e@[2]@[1]).sp_mul(x.e@[1]@[0].sp_neg().sp_add(x.e@[3]@[0]).sp_sub(x.e@[3]@[2]));
        let h35 = self.e@[0]@[2].sp_add(self.e@[0]@[3]).sp_add(self.e@[1]@[2]).sp_add(self.e@[1]@[3]).sp_sub(self.e@[2]@[0]).sp_add(self.e@[2]@[1]).sp_add(self.e@[2]@[2]).sp_add(self.e@[2]@[3]).sp_add(self.e@[3]@[0]).sp_sub(self.e@[3]@[1]).sp_sub(self.e@[3]@[2]).sp_sub(self.e@[3]@[3]).sp_mul(x.e@[0]@[3].sp_sub(x.e@[2]@[1]));
        let h36 = self.e@[2]@[0].sp_neg().sp_add(self.e@[2]@[1]).sp_add(self.e@[2]@[2]).sp_add(self.e@[2]@[3]).sp_add(self.e@[3]@[0]).sp_sub(self.e@[3]@[1]).sp_sub(self.e@[3]@[2]).sp_sub(self.e@[3]@[3]).sp_mul(x.e@[2]@[1]);
        let h37 = self.e@[0]@[1].sp_add(self.e@[2]@[1]).sp_mul(x.e@[1]@[2]);
        let h39 = self.e@[0]@[2].sp_neg().sp_sub(self.e@[0]@[3]).sp_sub(self.e@[1]@[2]).sp_sub(self.e@[1]@[3]).sp_mul(x.e@[2]@[1].sp_add(x.e@[2]@[3]));
        let h40 = self.e@[2]@[1].sp_mul(x.e@[1]@[0].sp_neg().sp_add(x.e@[1]@[2]).sp_add(x.e@[3]@[0]).sp_sub(x.e@[3]@[2]));
        seq![
            h1.sp_sub(h2).sp_sub(h5).sp_add(h9).sp_add(h15).sp_add(h33),
            h7.sp_neg().sp_add(h8).sp_sub(h10).sp_add(h11).sp_sub(h14).sp_add(h15).sp_add(h16).sp_sub(h17).sp_add(h18).sp_add(h21).sp_sub(h31).sp_add(h33).sp_sub(h35).sp_sub(h36),
            h1.sp_sub(h2).sp_add(h3).sp_sub(h5).sp_add(h33).sp_sub(h34).sp_add(h37).sp_sub(h40),
            h8.sp_sub(h10).sp_add(h11).sp_sub(h13).sp_add(h17).sp_sub(h18).sp_sub(h19).sp_sub(h21).sp_add(h31).sp_sub(h33).sp_add(h34).sp_add(h35).sp_add(h36).sp_sub(h37).sp_sub(h39).sp_add(h40),
        ]
    }

    /// Row 1 of the four-by-four fast product.
    pub open spec fn sp_mul4_row1<const O: usize>(self, x: Matrix<T, O, M>) -> Seq<T>
        recommends
            M == 4 && N == 4 && O == 4,
    {
        let h7 = self.e@[1]@[0].sp_neg().sp_add(self.e@[1]@[1]).sp_sub(self.e@[1]@[2]).sp_sub(self.e@[1]@[3]).sp_mul(x.e@[1]@[0].sp_neg().sp_add(x.e@[1]@[1]).sp_sub(x.e@[1]@[2]).sp_sub(x.e@[1]@[3]));
        let h8 = self.e@[1]@[0].sp_neg().sp_add(self.e@[1]@[1]).sp_sub(self.e@[1]@[2]).sp_sub(self.e@[1]@[3]).sp_sub(self.e@[3]@[0]).sp_add(self.e@[3]@[1]).sp_mul(x.e@[1]@[0].sp_neg().sp_add(x.e@[1]@[1]).sp_sub(x.e@[1]@[2]).sp_sub(x.e@[1]@[3]).sp_sub(x.e@[3]@[0]).sp_add(x.e@[3]@[1]));
        let h10 = self.e@[1]@[0].sp_neg().sp_add(self.e@[1]@[1]).sp_sub(self.e@[3]@[0]).sp_add(self.e@[3]@[1]).sp_mul(x.e@[1]@[0].sp_neg().sp_add(x.e@[1]@[1]).sp_sub(x.e@[3]@[0]).sp_add(x.e@[3]@[1]));
        let h11 = self.e@[3]@[0].sp_sub(self.e@[3]@[1]).sp_mul(x.e@[1]@[2].sp_neg().sp_sub(x.e@[1]@[3]));
        let h13 = self.e@[1]@[2].sp_neg().sp_sub(self.e@[1]@[3]).sp_mul(x.e@[1]@[0].sp_neg().sp_add(x.e@[1]@[1]).sp_sub(x.e@[1]@[2]).sp_sub(x.e@[1]@[3]).sp_sub(x.e@[3]@[0]).sp_add(x.e@[3]@[1]).sp_sub(x.e@[3]@[2]).sp_sub(x.e@[3]@[3]));
        let h15 = self.e@[0]@[1].sp_neg().sp_sub(self.e@[0]@[3]).sp_mul(x.e@[1]@[0].sp_neg());
        let h16 = self.e@[0]@[1].sp_add(self.e@[0]@[3]).sp_sub(self.e@[1]@[0]).sp_add(self.e@[1]@[1]).sp_add(self.e@[1]@[2]).sp_add(self.e@[1]@[3]).sp_mul(x.e@[0]@[1].sp_add(x.e@[0]@[3]).sp_sub(x.e@[1]@[0]).sp_add(x.e@[1]@[1]).sp_add(x.e@[1]@[2]).sp_add(x.e@[1]@[3]));
        let h17 = self.e@[0]@[1].sp_add(self.e@[0]@[3]).sp_sub(self.e@[1]@[0]).sp_add(self.e@[1]@[1]).sp_add(self.e@[1]@[2]).sp_add(self.e@[1]@[3]).sp_add(self.e@[2]@[1]).sp_add(self.e@[3]@[0]).sp_sub(self.e@[3]@[1]).sp_mul(x.e@[0]@[1].sp_add(x.e@[0]@[3]).sp_sub(x.e@[1]@[0]).sp_add(x.e@[1]@[1]).sp_add(x.e@[1]@[2]).sp_add(x.e@[1]@[3]).sp_add(x.e@[2]@[1]).sp_add(x.e@[3]@[0]).sp_sub(x.e@[3]@[1]));
        let h18 = self.e@[0]@[1].sp_sub(self.e@[1]@[0]).sp_add(self.e@[1]@[1]).sp_add(self.e@[2]@[1]).sp_add(self.e@[3]@[0]).sp_sub(self.e@[3]@[1]).sp_mul(x.e@[0]@[1].sp_sub(x.e@[1]@[0]).sp_add(x.e@[1]@[1]).sp_add(x.e@[2]@[1]).sp_add(x.e@[3]@[0]).sp_sub(x.e@[3]@[1]));
        let h19 = self.e@[0]@[3].sp_add(self.e@[1]@[2]).sp_add(self.e@[1]@[3]).sp_mul(x.e@[0]@[1].sp_add(x.e@[0]@[3]).sp_sub(x.e@[1]@[0]).sp_add(x.e@[1]@[1]).sp_add(x.e@[1]@[2]).sp_add(x.e@[1]@[3]).sp_add(x.e@[2]@[1]).sp_add(x.e@[2]@[3]).sp_add(x.e@[3]@[0]).sp_sub(x.e@[3]@[1]).sp_sub(x.e@[3]@[2]).sp_sub(x.e@[3]@[3]));
        let h21 = self.e@[2]@[1].sp_add(self.e@[3]@[0]).sp_sub(self.e@[3]@[1]).sp_mul(x.e@[0]@[3].sp_add(x.e@[1]@[2]).sp_add(x.e@[1]@[3]));
        let h22 = self.e@[0]@[1].sp_add(self.e@[0]@[3]).sp_add(self.e@[1]@[1]).sp_add(self.e@[1]@[3]).sp_mul(x.e@[0]@[1].sp_add(x.e@[0]@[3]).sp_add(x.e@[1]@[1]).sp_add(x.e@[1]@[3]));
        let h23 = self.e@[0]@[1].sp_add(self.e@[0]@[3]).sp_add(self.e@[1]@[1]).sp_add(self.e@[1]@[3]).sp_add(self.e@[2]@[1]).sp_sub(self.e@[3]@[1]).sp_mul(x.e@[0]@[1].sp_add(x.e@[0]@[3]).sp_add(x.e@[1]@[1]).sp_add(x.e@[1]@[3]).sp_add(x.e@[2]@[1]).sp_sub(x.e@[3]@[1]));
        let h24 = self.e@[0]@[3].sp_add(self.e@[1]@[3]).sp_mul(x.e@[0]@[1].sp_add(x.e@[0]@[3]).sp_add(x.e@[1]@[1]).sp_add(x.e@[1]@[3]).sp_add(x.e@[2]@[1]).sp_add(x.e@[2]@[3]).sp_sub(x.e@[3]@[1]).sp_sub(x.e@[3]@[3]));
        let h26 = self.e@[2]@[1].sp_sub(self.e@[3]@[1]).sp_mul(x.e@[0]@[3].sp_add(x.e@[1]@[3]));
        let h33 = self.e@[0]@[3].sp_mul(x.e@[1]@[0].sp_neg().sp_add(x.e@[3]@[0]));
        let h34 = self.e@[0]@[3].sp_sub(self.e@[2]@[1]).sp_mul(x.e@[1]@[0].sp_neg().sp_add(x.e@[3]@[0]).sp_sub(x.e@[3]@[2]));
        let h37 = self.e@[0]@[1].sp_add(self.e@[2]@[1]).sp_mul(x.e@[1]@[2]);
        let h40 = self.e@[2]@[1].sp_mul(x.e@[1]@[0].sp_neg().sp_add(x.e@[1]@[2]).sp_add(x.e@[3]@[0]).sp_sub(x.e@[3]@[2]));
        let h41 = self.e@[1]@[0].sp_neg().sp_mul(x.e@[0]@[0].sp_sub(x.e@[0]@[1]).sp_add(x.e@[1]@[0]).sp_sub(x.e@[1]@[1]));
        let h43 = self.e@[1]@[0].sp_neg().sp_add(self.e@[3]@[0]).sp_sub(self.e@[3]@[2]).sp_mul(x.e@[0]@[2].sp_add(x.e@[0]@[3]).sp_add(x.e@[1]@[2]).sp_add(x.e@[1]@[3]).sp_sub(x.e@[2]@[0]).sp_add(x.e@[2]@[1]).sp_add(x.e@[2]@[2]).sp_add(x.e@[2]@[3]).sp_add(x.e@[3]@[0]).sp_sub(x.e@[3]@[1]).sp_sub(x.e@[3]@[2]).sp_sub(x.e@[3]@[3]));
        let h44 = self.e@[0]@[1].sp_add(self.e@[1]@[1]).sp_add(self.e@[2]@[1]).sp_sub(self.e@[3]@[1]).sp_mul(x.e@[0]@[1].sp_add(x.e@[1]@[1]).sp_add(x.e@[2]@[1]).sp_sub(x.e@[3]@[1]));
        let h45 = self.e@[1]@[0].sp_neg().sp_add(self.e@[1]@[2]).sp_add(self.e@[3]@[0]).sp_sub(self.e@[3]@[2]).sp_mul(x.e@[2]@[0].sp_neg().sp_add(x.e@[2]@[1]).sp_add(x.e@[2]@[2]).sp_add(x.e@[2]@[3]).sp_add(x.e@[3]@[0]).sp_sub(x.e@[3]@[1]).sp_sub(x.e@[3]@[2]).sp_sub(x.e@[3]@[3]));
        let h47 = self.e@[3]@[0].sp_sub(self.e@[3]@[2]).sp_mul(x.e@[0]@[2].sp_neg().sp_sub(x.e@[0]@[3]).sp_sub(x.e@[1]@[2]).sp_sub(x.e@[1]@[3]));
        let h49 = self.e@[1]@[2].sp_neg().sp_mul(x.e@[2]@[0].sp_neg().sp_add(x.e@[2]@[1]).sp_add(x.e@[3]@[0]).sp_sub(x.e@[3]@[1]));
        seq![
            h15.sp_neg().sp_sub(h16).sp_add(h17).sp_sub(h18).sp_sub(h21).sp_add(h22).sp_sub(h23).sp_add(h26).sp_sub(h33).sp_sub(h41).sp_add(h44).sp_add(h49),
            h7.sp_sub(h8).sp_add(h10).sp_sub(h11).sp_sub(h15).sp_sub(h16).sp_add(h17).sp_sub(h18).sp_sub(h21).sp_add(h22).sp_sub(h23).sp_add(h26).sp_sub(h33).sp_add(h44),
            h17.sp_sub(h18).sp_sub(h19).sp_sub(h21).sp_sub(h23).sp_add(h24).sp_add(h26).sp_sub(h33).sp_add(h34).sp_sub(h37).sp_add(h40).sp_sub(h43).sp_add(h44).sp_add(h45).sp_sub(h47).sp_add(h49),
            h8.sp_neg().sp_add(h10).sp_add(h11.sp_neg()).sp_add(h13).sp_add(h17.sp_neg()).sp_add(h18).sp_add(h19).sp_add(h21).sp_add(h23).sp_sub(h24).sp_sub(h26).sp_add(h33).sp_sub(h34).sp_add(h37).sp_sub(h40).sp_sub(h44),
        ]
    }

    /// Row 2 of the four-by-four fast product.
    pub open spec fn sp_mul4_row2<const O: usize>(self, x: Matrix<T, O, M>) -> Seq<T>
        recommends
            M == 4 && N == 4 && O == 4,
    {
        let h2 = self.e@[0]@[0].sp_sub(self.e@[0]@[2]).sp_add(self.e@[2]@[0]).sp_mul(x.e@[0]@[0].sp_sub(x.e@[0]@[2]).sp_add(x.e@[2]@[0]));
        let h4 = self.e@[2]@[2].sp_mul(x.e@[2]@[2]);
        let h5 = self.e@[2]@[0].sp_neg().sp_mul(x.e@[0]@[2].sp_neg());
        let h6 = self.e@[0]@[0].sp_sub(self.e@[0]@[2]).sp_add(self.e@[2]@[0]).sp_sub(self.e@[2]@[2]).sp_mul(x.e@[2]@[0].sp_neg());
        let h7 = self.e@[1]@[0].sp_neg().sp_add(self.e@[1]@[1]).sp_sub(self.e@[1]@[2]).sp_sub(self.e@[1]@[3]).sp_mul(x.e@[1]@[0].sp_neg().sp_add(x.e@[1]@[1]).sp_sub(x.e@[1]@[2]).sp_sub(x.e@[1]@[3]));
        let h8 = self.e@[1]@[0].sp_neg().sp_add(self.e@[1]@[1]).sp_sub(self.e@[1]@[2]).sp_sub(self.e@[1]@[3]).sp_sub(self.e@[3]@[0]).sp_add(self.e@[3]@[1]).sp_mul(x.e@[1]@[0].sp_neg().sp_add(x.e@[1]@[1]).sp_sub(x.e@[1]@[2]).sp_sub(x.e@[1]@[3]).sp_sub(x.e@[3]@[0]).sp_add(x.e@[3]@[1]));
        let h9 = self.e@[0]@[0].sp_sub(self.e@[0]@[2]).sp_mul(x.e@[0]@[0].sp_sub(x.e@[0]@[2]));
        let h11 = self.e@[3]@[0].sp_sub(self.e@[3]@[1]).sp_mul(x.e@[1]@[2].sp_neg().sp_sub(x.e@[1]@[3]));
        let h12 = self.e@[1]@[0].sp_neg().sp_add(self.e@[1]@[1]).sp_sub(self.e@[1]@[2]).sp_sub(self.e@[1]@[3]).sp_sub(self.e@[3]@[0]).sp_add(self.e@[3]@[1]).sp_sub(self.e@[3]@[2]).sp_sub(self.e@[3]@[3]).sp_mul(x.e@[3]@[0].sp_sub(x.e@[3]@[1]));
        let h16 = self.e@[0]@[1].sp_add(self.e@[0]@[3]).sp_sub(self.e@[1]@[0]).sp_add(self.e@[1]@[1]).sp_add(self.e@[1]@[2]).sp_add(self.e@[1]@[3]).sp_mul(x.e@[0]@[1].sp_add(x.e@[0]@[3]).sp_sub(x.e@[1]@[0]).sp_add(x.e@[1]@[1]).sp_add(x.e@[1]@[2]).sp_add(x.e@[1]@[3]));
        let h17 = self.e@[0]@[1].sp_add(self.e@[0]@[3]).sp_sub(self.e@[1]@[0]).sp_add(self.e@[1]@[1]).sp_add(self.e@[1]@[2]).sp_add(self.e@[1]@[3]).sp_add(self.e@[2]@[1]).sp_add(self.e@[3]@[0]).sp_sub(self.e@[3]@[1]).sp_mul(x.e@[0]@[1].sp_add(x.e@[0]@[3]).sp_sub(x.e@[1]@[0]).sp_add(x.e@[1]@[1]).sp_add(x.e@[1]@[2]).sp_add(x.e@[1]@[3]).sp_add(x.e@[2]@[1]).sp_add(x.e@[3]@[0]).sp_sub(x.e@[3]@[1]));
        let h20 = self.e@[0]@[1].sp_add(self.e@[0]@[3]).sp_sub(self.e@[1]@[0]).sp_add(self.e@[1]@[1]).sp_add(self.e@[1]@[2]).sp_add(self.e@[1]@[3]).sp_add(self.e@[2]@[1]).sp_add(self.e@[2]@[3]).sp_add(self.e@[3]@[0]).sp_sub(self.e@[3]@[1]).sp_sub(self.e@[3]@[2]).sp_sub(self.e@[3]@[3]).sp_mul(x.e@[2]@[1].sp_add(x.e@[3]@[0]).sp_sub(x.e@[3]@[1]));
        let h21 = self.e@[2]@[1].sp_add(self.e@[3]@[0]).sp_sub(self.e@[3]@[1]).sp_mul(x.e@[0]@[3].sp_add(x.e@[1]@[2]).sp_add(x.e@[1]@[3]));
        let h28 = self.e@[2]@[3].sp_sub(self.e@[3]@[2]).sp_sub(self.e@[3]@[3]).sp_mul(x.e@[2]@[3].sp_sub(x.e@[3]@[2]).sp_sub(x.e@[3]@[3]));
        let h29 = self.e@[0]@[3].sp_add(self.e@[2]@[3]).sp_mul(x.e@[3]@[2].sp_neg());
        let h30 = self.e@[0]@[2].sp_add(self.e@[0]@[3]).sp_add(self.e@[1]@[2]).sp_add(self.e@[1]@[3]).sp_add(self.e@[2]@[2]).sp_add(self.e@[2]@[3]).sp_sub(self.e@[3]@[2]).sp_sub(self.e@[3]@[3]).sp_mul(x.e@[0]@[3].sp_add(x.e@[2]@[3]));
        let h33 = self.e@[0]@[3].sp_mul(x.e@[1]@[0].sp_neg().sp_add(x.e@[3]@[0]));
        let h34 = self.e@[0]@[3].sp_sub(self.e@[2]@[1]).sp_mul(x.e@[1]@[0].sp_neg().sp_add(x.e@[3]@[0]).sp_sub(x.e@[3]@[2]));
        let h35 = self.e@[0]@[2].sp_add(self.e@[0]@[3]).sp_add(self.e@[1]@[2]).sp_add(self.e@[1]@[3]).sp_sub(self.e@[2]@[0]).sp_add(self.e@[2]@[1]).sp_add(self.e@[2]@[2]).sp_add(self.e@[2]@[3]).sp_add(self.e@[3]@[0]).sp_sub(self.e@[3]@[1]).sp_sub(self.e@[3]@[2]).sp_sub(self.e@[3]@[3]).sp_mul(x.e@[0]@[3].sp_sub(x.e@[2]@[1]));
        let h36 = self.e@[2]@[0].sp_neg().sp_add(self.e@[2]@[1]).sp_add(self.e@[2]@[2]).sp_add(self.e@[2]@[3]).sp_add(self.e@[3]@[0]).sp_sub(self.e@[3]@[1]).sp_sub(self.e@[3]@[2]).sp_sub(self.e@[3]@[3]).sp_mul(x.e@[2]@[1]);
        let h38 = self.e@[2]@[1].sp_add(self.e@[2]@[3]).sp_mul(x.e@[3]@[0].sp_sub(x.e@[3]@[2]));
        let h39 = self.e@[0]@[2].sp_neg().sp_sub(self.e@[0]@[3]).sp_sub(self.e@[1]@[2]).sp_sub(self.e@[1]@[3]).sp_mul(x.e@[2]@[1].sp_add(x.e@[2]@[3]));
        let h40 = self.e@[2]@[1].sp_mul(x.e@[1]@[0].sp_neg().sp_add(x.e@[1]@[2]).sp_add(x.e@[3]@[0]).sp_sub(x.e@[3]@[2]));
        let h46 = self.e@[2]@[0].sp_neg().sp_add(self.e@[2]@[1]).sp_add(self.e@[3]@[0]).sp_sub(self.e@[3]@[1]).sp_mul(x.e@[0]@[1].sp_neg().sp_sub(x.e@[2]@[1]));
        let h48 = self.e@[3]@[2].sp_neg().sp_sub(self.e@[3]@[3]).sp_mul(x.e@[3]@[2].sp_neg().sp_sub(x.e@[3]@[3]));
        seq![
            h2.sp_add(h5).sp_add(h6).sp_sub(h9).sp_sub(h29).sp_sub(h33).sp_add(h34).sp_add(h38),
            h7.sp_neg().sp_add(h8).sp_add(h11).sp_add(h12).sp_sub(h16).sp_add(h17).sp_sub(h20).sp_sub(h21).sp_sub(h29).sp_sub(h33).sp_add(h34).sp_add(h36).sp_add(h38).sp_add(h46),
            h4.sp_add(h5).sp_sub(h29).sp_sub(h33).sp_add(h34).sp_add(h40),
            h11.sp_add(h21).sp_sub(h28).sp_add(h29).sp_add(h30).sp_add(h33).sp_sub(h34).sp_sub(h35).sp_sub(h36).sp_add(h39).sp_sub(h40).sp_add(h48),
        ]
    }

    /// Row 3 of the four-by-four fast product.
    pub open spec fn sp_mul4_row3<const O: usize>(self, x: Matrix<T, O, M>) -> Seq<T>
        recommends
            M == 4 && N == 4 && O == 4,
    {
        let h7 = self.e@[1]@[0].sp_neg().sp_add(self.e@[1]@[1]).sp_sub(self.e@[1]@[2]).sp_sub(self.e@[1]@[3]).sp_mul(x.e@[1]@[0].sp_neg().sp_add(x.e@[1]@[1]).sp_sub(x.e@[1]@[2]).sp_sub(x.e@[1]@[3]));
        let h8 = self.e@[1]@[0].sp_neg().sp_add(self.e@[1]@[1]).sp_sub(self.e@[1]@[2]).sp_sub(self.e@[1]@[3]).sp_sub(self.e@[3]@[0]).sp_add(self.e@[3]@[1]).sp_mul(x.e@[1]@[0].sp_neg().sp_add(x.e@[1]@[1]).sp_sub(x.e@[1]@[2]).sp_sub(x.e@[1]@[3]).sp_sub(x.e@[3]@[0]).sp_add(x.e@[3]@[1]));
        let h11 = self.e@[3]@[0].sp_sub(self.e@[3]@[1]).sp_mul(x.e@[1]@[2].sp_neg().sp_sub(x.e@[1]@[3]));
        let h12 = self.e@[1]@[0].sp_neg().sp_add(self.e@[1]@[1]).sp_sub(self.e@[1]@[2]).sp_sub(self.e@[1]@[3]).sp_sub(self.e@[3]@[0]).sp_add(self.e@[3]@[1]).sp_sub(self.e@[3]@[2]).sp_sub(self.e@[3]@[3]).sp_mul(x.e@[3]@[0].sp_sub(x.e@[3]@[1]));
        let h16 = self.e@[0]@[1].sp_add(self.e@[0]@[3]).sp_sub(self.e@[1]@[0]).sp_add(self.e@[1]@[1]).sp_add(self.e@[1]@[2]).sp_add(self.e@[1]@[3]).sp_mul(x.e@[0]@[1].sp_add(x.e@[0]@[3]).sp_sub(x.e@[1]@[0]).sp_add(x.e@[1]@[1]).sp_add(x.e@[1]@[2]).sp_add(x.e@[1]@[3]));
        let h17 = self.e@[0]@[1].sp_add(self.e@[0]@[3]).sp_sub(self.e@[1]@[0]).sp_add(self.e@[1]@[1]).sp_add(self.e@[1]@[2]).sp_add(self.e@[1]@[3]).sp_add(self.e@[2]@[1]).sp_add(self.e@[3]@[0]).sp_sub(self.e@[3]@[1]).sp_mul(x.e@[0]@[1].sp_add(x.e@[0]@[3]).sp_sub(x.e@[1]@[0]).sp_add(x.e@[1]@[1]).sp_add(x.e@[1]@[2]).sp_add(x.e@[1]@[3]).sp_add(x.e@[2]@[1]).sp_add(x.e@[3]@[0]).sp_sub(x.e@[3]@[1]));
        let h20 = self.e@[0]@[1].sp_add(self.e@[0]@[3]).sp_sub(self.e@[1]@[0]).sp_add(self.e@[1]@[1]).sp_add(self.e@[1]@[2]).sp_add(self.e@[1]@[3]).sp_add(self.e@[2]@[1]).sp_add(self.e@[2]@[3]).sp_add(self.e@[3]@[0]).sp_sub(self.e@[3]@[1]).sp_sub(self.e@[3]@[2]).sp_sub(self.e@[3]@[3]).sp_mul(x.e@[2]@[1].sp_add(x.e@[3]@[0]).sp_sub(x.e@[3]@[1]));
        let h21 = self.e@[2]@[1].sp_add(self.e@[3]@[0]).sp_sub(self.e@[3]@[1]).sp_mul(x.e@[0]@[3].sp_add(x.e@[1]@[2]).sp_add(x.e@[1]@[3]));
        let h22 = self.e@[0]@[1].sp_add(self.e@[0]@[3]).sp_add(self.e@[1]@[1]).sp_add(self.e@[1]@[3]).sp_mul(x.e@[0]@[1].sp_add(x.e@[0]@[3]).sp_add(x.e@[1]@[1]).sp_add(x.e@[1]@[3]));
        let h23 = self.e@[0]@[1].sp_add(self.e@[0]@[3]).sp_add(self.e@[1]@[1]).sp_add(self.e@[1]@[3]).sp_add(self.e@[2]@[1]).sp_sub(self.e@[3]@[1]).sp_mul(x.e@[0]@[1].sp_add(x.e@[0]@[3]).sp_add(x.e@[1]@[1]).sp_add(x.e@[1]@[3]).sp_add(x.e@[2]@[1]).sp_sub(x.e@[3]@[1]));
        let h25 = self.e@[0]@[1].sp_add(self.e@[0]@[3]).sp_add(self.e@[1]@[1]).sp_add(self.e@[1]@[3]).sp_add(self.e@[2]@[1]).sp_add(self.e@[2]@[3]).sp_sub(self.e@[3]@[1]).sp_sub(self.e@[3]@[3]).sp_mul(x.e@[2]@[1].sp_sub(x.e@[3]@[1]));
        let h26 = self.e@[2]@[1].sp_sub(self.e@[3]@[1]).sp_mul(x.e@[0]@[3].sp_add(x.e@[1]@[3]));
        let h27 = self.e@[2]@[3].sp_sub(self.e@[3]@[3]).sp_mul(x.e@[2]@[3].sp_sub(x.e@[3]@[3]));
        let h28 = self.e@[2]@[3].sp_sub(self.e@[3]@[2]).sp_sub(self.e@[3]@[3]).sp_mul(x.e@[2]@[3].sp_sub(x.e@[3]@[2]).sp_sub(x.e@[3]@[3]));
        let h29 = self.e@[0]@[3].sp_add(self.e@[2]@[3]).sp_mul(x.e@[3]@[2].sp_neg());
        let h32 = self.e@[3]@[2].sp_neg().sp_mul(x.e@[0]@[2].sp_add(x.e@[0]@[3]).sp_add(x.e@[1]@[2]).sp_add(x.e@[1]@[3]).sp_add(x.e@[2]@[2]).sp_add(x.e@[2]@[3]).sp_sub(x.e@[3]@[2]).sp_sub(x.e@[3]@[3]));
        let h33 = self.e@[0]@[3].sp_mul(x.e@[1]@[0].sp_neg().sp_add(x.e@[3]@[0]));
        let h34 = self.e@[0]@[3].sp_sub(self.e@[2]@[1]).sp_mul(x.e@[1]@[0].sp_neg().sp_add(x.e@[3]@[0]).sp_sub(x.e@[3]@[2]));
        let h38 = self.e@[2]@[1].sp_add(self.e@[2]@[3]).sp_mul(x.e@[3]@[0].sp_sub(x.e@[3]@[2]));
        let h40 = self.e@[2]@[1].sp_mul(x.e@[1]@[0].sp_neg().sp_add(x.e@[1]@[2]).sp_add(x.e@[3]@[0]).sp_sub(x.e@[3]@[2]));
        let h41 = self.e@[1]@[0].sp_neg().sp_mul(x.e@[0]@[0].sp_sub(x.e@[0]@[1]).sp_add(x.e@[1]@[0]).sp_sub(x.e@[1]@[1]));
        let h42 = self.e@[1]@[0].sp_neg().sp_add(self.e@[3]@[0]).sp_mul(x.e@[0]@[0].sp_sub(x.e@[0]@[1]).sp_sub(x.e@[0]@[2]).sp_sub(x.e@[0]@[3]).sp_add(x.e@[1]@[0]).sp_sub(x.e@[1]@[1]).sp_sub(x.e@[1]@[2]).sp_sub(x.e@[1]@[3]).sp_add(x.e@[2]@[0]).sp_sub(x.e@[2]@[1]).sp_sub(x.e@[2]@[2]).sp_sub(x.e@[2]@[3]).sp_sub(x.e@[3]@[0]).sp_add(x.e@[3]@[1]).sp_add(x.e@[3]@[2]).sp_add(x.e@[3]@[3]));
        let h43 = self.e@[1]@[0].sp_neg().sp_add(self.e@[3]@[0]).sp_sub(self.e@[3]@[2]).sp_mul(x.e@[0]@[2].sp_add(x.e@[0]@[3]).sp_add(x.e@[1]@[2]).sp_add(x.e@[1]@[3]).sp_sub(x.e@[2]@[0]).sp_add(x.e@[2]@[1]).sp_add(x.e@[2]@[2]).sp_add(x.e@[2]@[3]).sp_add(x.e@[3]@[0]).sp_sub(x.e@[3]@[1]).sp_sub(x.e@[3]@[2]).sp_sub(x.e@[3]@[3]));
        let h47 = self.e@[3]@[0].sp_sub(self.e@[3]@[2]).sp_mul(x.e@[0]@[2].sp_neg().sp_sub(x.e@[0]@[3]).sp_sub(x.e@[1]@[2]).sp_sub(x.e@[1]@[3]));
        let h48 = self.e@[3]@[2].sp_neg().sp_sub(self.e@[3]@[3]).sp_mul(x.e@[3]@[2].sp_neg().sp_sub(x.e@[3]@[3]));
        seq![
            h16.sp_neg().sp_add(h17).sp_sub(h20).sp_sub(h21).sp_add(h22).sp_sub(h23).sp_add(h25).sp_add(h26).sp_sub(h29).sp_sub(h32).sp_sub(h33).sp_add(h34).sp_add(h38).sp_sub(h41).sp_add(h42).sp_add(h43),
            h7.sp_neg().sp_add(h8).sp_add(h11).sp_add(h12).sp_sub(h16).sp_add(h17).sp_sub(h20).sp_sub(h21).sp_add(h22).sp_sub(h23).sp_add(h25).sp_add(h26).sp_sub(h29).sp_sub(h33).sp_add(h34).sp_add(h38),
            h21.sp_neg().sp_add(h26).sp_sub(h27).sp_add(h28).sp_sub(h29).sp_sub(h32).sp_sub(h33).sp_add(h34).sp_add(h40).sp_sub(h47),
            h11.sp_add(h21).sp_sub(h26).sp_add(h27).sp_sub(h28).sp_add(h29).sp_add(h33).sp_sub(h34).sp_sub(h40).sp_add(h48),
        ]
    }

    /// The forty-nine-product four-by-four fast product, row by row.
    pub open spec fn sp_mul4<const O: usize>(self, x: Matrix<T, O, M>) -> Seq<Seq<T>>
        recommends
            M == 4 && N == 4 && O == 4,
    {
        seq![
            self.sp_mul4_row0(x),
            self.sp_mul4_row1(x),
            self.sp_mul4_row2(x),
            self.sp_mul4_row3(x),
        ]
    }

    /// The all-zero matrix.
    pub fn zero() -> (r: Self)
        ensures
            forall|j: int, i: int|
                0 <= j < N && 0 <= i < M ==> #[trigger] r.e@[j]@[i] == T::sp_zero(),
    {
        let z = T::zero();
        let row = [z; M];
        Matrix { e: [row; N] }
    }

    /// The identity matrix; only square shapes have one.
    pub fn identity() -> (r: Self)
        requires
            M == N,
        ensures
            forall|j: int, i: int|
                0 <= j < N && 0 <= i < M ==> #[trigger] r.e@[j]@[i] == if j == i {
                    T::sp_one()
                } else {
                    T::sp_zero()
                },
    {
        let z = T::zero();
        let row = [z; M];
        let mut e = [row; N];
        for d in 0..M
            invariant
                e@.len() == N,
                M == N,
                forall|j: int, i: int|
                    0 <= j < N && 0 <= i < M ==> #[trigger] e@[j]@[i] == if j == i && j < d {
                        T::sp_one()
                    } else {
                        T::sp_zero()
                    },
        {
            let mut r = e[d];
            r[d] = T::one();
            e[d] = r;
        }
        Matrix { e }
    }

    pub fn new(e: [[T; M]; N]) -> (r: Self)
        ensures
            r.e == e,
    {
        Self { e }
    }

    /// The determinant, defined here for the two-by-two and
    /// three-by-three shapes.
    pub fn determinant(&self) -> (r: T)
        requires
            (M == 2 && N == 2) || (M == 3 && N == 3),
        ensures
            M == 2 ==> r == self.sp_det2(),
            M == 3 ==> r == self.sp_det3(),
    {
        if M == 2 {
            self.e[0][0].mul(self.e[1][1]).sub(self.e[0][1].mul(self.e[1][0]))
        } else {
            let m1 = self.e[1][1].mul(self.e[2][0]);
            let ma1 = self.e[1][0].mul_add(self.e[2][1], m1.neg());
            let m2 = self.e[1][2].mul(self.e[2][0]);
            let ma2 = self.e[1][0].mul_add(self.e[2][2], m2.neg());
            let m3 = self.e[1][2].mul(self.e[2][1]);
            let ma3 = self.e[1][1].mul_add(self.e[2][2], m3.neg());
            let m4 = self.e[0][2].mul(ma1);
            let ma4 = self.e[0][1].mul_add(ma2, m4.neg());
            self.e[0][0].mul_add(ma3, ma4.neg())
        }
    }

    fn mul2<const O: usize>(&self, x: &Matrix<T, O, M>) -> (r: Matrix<T, O, N>)
        requires
            M == 2 && N == 2 && O == 2,
        ensures
            r.sp_rows() == self.sp_mul2(*x),
    {
        let z = T::zero();
        let zrow = [z; O];
        let mut e = [zrow; N];
        let m1 = self.e[0][0].add(self.e[1][1]).mul(x.e[0][0].add(x.e[1][1]));
        let m2 = self.e[1][0].add(self.e[1][1]).mul(x.e[0][0]);
        let m3 = self.e[0][0].mul(x.e[0][1].sub(x.e[1][1]));
        let m4 = self.e[1][1].mul(x.e[1][0].sub(x.e[0][0]));
        let m5 = self.e[0][0].add(self.e[0][1]).mul(x.e[1][1]);
        let m6 = self.e[1][0].sub(self.e[0][0]).mul(x.e[0][0].add(x.e[0][1]));
        let m7 = self.e[0][1].sub(self.e[1][1]).mul(x.e[1][0].add(x.e[1][1]));
        let mut r0 = e[0];
        r0[0] = m1.add(m4).sub(m5).add(m7);
        r0[1] = m3.add(m5);
        e[0] = r0;
        let mut r1 = e[1];
        r1[0] = m2.add(m4);
        r1[1] = m1.sub(m2).add(m3).add(m6);
        e[1] = r1;
        let res = Matrix { e };
        proof {
            assert(res.sp_rows() =~~= self.sp_mul2(*x));
        }
        res
    }

    fn mul3<const O: usize>(&self, x: &Matrix<T, O, M>) -> (r: Matrix<T, O, N>)
        requires
            M == 3 && N == 3 && O == 3,
        ensures
            r.sp_rows() == self.sp_mul3(*x),
    {
        let z = T::zero();
        let zrow = [z; O];
        let mut e = [zrow; N];
        let m1 = self.e[0][0].add(self.e[0][1]).add(self.e[0][2]).sub(self.e[1][0]).sub(self.e[1][1]).sub(self.e[2][1]).sub(self.e[2][2]).mul(x.e[1][1]);
        let m2 = self.e[0][0].sub(self.e[1][0]).mul(x.e[1][1].sub(x.e[0][1]));
        let m3 = self.e[1][1].mul(x.e[0][0].neg().add(x.e[0][1]).add(x.e[1][0]).sub(x.e[1][1]).sub(x.e[1][2]).sub(x.e[2][0]).add(x.e[2][2]));
        let m4 = self.e[0][0].neg().add(self.e[1][0]).add(self.e[1][1]).mul(x.e[0][0].sub(x.e[0][1]).add(x.e[1][1]));
        let m5 = self.e[1][0].add(self.e[1][1]).mul(x.e[0][0].neg().add(x.e[0][1]));
        let m6 = self.e[0][0].mul(x.e[0][0]);
        let m7 = self.e[0][0].neg().add(self.e[2][0]).add(self.e[2][1]).mul(x.e[0][0].sub(x.e[0][2]).add(x.e[1][2]));
        let m8 = self.e[0][0].neg().add(self.e[2][0]).mul(x.e[0][2].sub(x.e[1][2]));
        let m9 = self.e[2][0].add(self.e[2][1]).mul(x.e[0][0].neg().add(x.e[0][2]));
        let m10 = self.e[0][0].add(self.e[0][1]).add(self.e[0][2]).sub(self.e[1][1]).sub(self.e[1][2]).sub(self.e[2][0]).sub(self.e[2][1]).mul(x.e[1][2]);
        let m11 = self.e[2][1].mul(x.e[0][0].neg().add(x.e[0][2]).add(x.e[1][0]).sub(x.e[1][1]).sub(x.e[1][2]).sub(x.e[2][0]).add(x.e[2][1]));
        let m12 = self.e[0][2].neg().add(self.e[2][1]).add(self.e[2][2]).mul(x.e[1][1].add(x.e[2][0]).sub(x.e[2][1]));
        let m13 = self.e[0][2].sub(self.e[2][2]).mul(x.e[1][1].sub(x.e[2][1]));
        let m14 = self.e[0][2].mul(x.e[2][0]);
        let m15 = self.e[2][1].add(self.e[2][2]).mul(x.e[2][0].neg().add(x.e[2][1]));
        let m16 = self.e[0][2].neg().add(self.e[1][1]).add(self.e[1][2]).mul(x.e[1][2].add(x.e[2][0]).sub(x.e[2][2]));
        let m17 = self.e[0][2].sub(self.e[1][2]).mul(x.e[1][2].sub(x.e[2][2]));
        let m18 = self.e[1][1].add(self.e[1][2]).mul(x.e[2][0].neg().add(x.e[2][2]));
        let m19 = self.e[0][1].mul(x.e[1][0]);
        let m20 = self.e[1][2].mul(x.e[2][1]);
        let m21 = self.e[1][0].mul(x.e[0][2]);
        let m22 = self.e[2][0].mul(x.e[0][1]);
        let m23 = self.e[2][2].mul(x.e[2][2]);
        let mut r0 = e[0];
        r0[0] = m6.add(m14).add(m19);
        r0[1] = m1.add(m4).add(m5).add(m6).add(m12).add(m14).add(m15);
        r0[2] = m6.add(m7).add(m9).add(m10).add(m14).add(m16).add(m18);
        e[0] = r0;
        let mut r1 = e[1];
        r1[0] = m2.add(m3).add(m4).add(m6).add(m14).add(m16).add(m17);
        r1[1] = m2.add(m4).add(m5).add(m6).add(m20);
        r1[2] = m14.add(m16).add(m17).add(m18).add(m21);
        e[1] = r1;
        let mut r2 = e[2];
        r2[0] = m6.add(m7).add(m8).add(m11).add(m12).add(m13).add(m14);
        r2[1] = m12.add(m13).add(m14).add(m15).add(m22);
        r2[2] = m6.add(m7).add(m8).add(m9).add(m23);
        e[2] = r2;
        let res = Matrix { e };
        proof {
            assert(res.sp_rows() =~~= self.sp_mul3(*x));
        }
        res
    }

    fn mul4_row0<const O: usize>(&self, x: &Matrix<T, O, M>, row: [T; O]) -> (r: [T; O])
        requires
            M == 4 && N == 4 && O == 4,
        ensures
            r@ == self.sp_mul4_row0(*x),
    {
        let mut row = row;
        let h1 = self.e[0][0].add(self.e[2][0]).mul(x.e[0][0].add(x.e[2][0]));
        let h2 = self.e[0][0].sub(self.e[0][2]).add(self.e[2][0]).mul(x.e[0][0].sub(x.e[0][2]).add(x.e[2][0]));
        let h3 = self.e[0][2].neg().mul(x.e[0][0].sub(x.e[0][2]).add(x.e[2][0]).sub(x.e[2][2]));
        let h5 = self.e[2][0].neg().mul(x.e[0][2].neg());
        let h7 = self.e[1][0].neg().add(self.e[1][1]).sub(self.e[1][2]).sub(self.e[1][3]).mul(x.e[1][0].neg().add(x.e[1][1]).sub(x.e[1][2]).sub(x.e[1][3]));
        let h8 = self.e[1][0].neg().add(self.e[1][1]).sub(self.e[1][2]).sub(self.e[1][3]).sub(self.e[3][0]).add(self.e[3][1]).mul(x.e[1][0].neg().add(x.e[1][1]).sub(x.e[1][2]).sub(x.e[1][3]).sub(x.e[3][0]).add(x.e[3][1]));
        let h9 = self.e[0][0].sub(self.e[0][2]).mul(x.e[0][0].sub(x.e[0][2]));
        let h10 = self.e[1][0].neg().add(self.e[1][1]).sub(self.e[3][0]).add(self.e[3][1]).mul(x.e[1][0].neg().add(x.e[1][1]).sub(x.e[3][0]).add(x.e[3][1]));
        let h11 = self.e[3][0].sub(self.e[3][1]).mul(x.e[1][2].neg().sub(x.e[1][3]));
        let h13 = self.e[1][2].neg().sub(self.e[1][3]).mul(x.e[1][0].neg().add(x.e[1][1]).sub(x.e[1][2]).sub(x.e[1][3]).sub(x.e[3][0]).add(x.e[3][1]).sub(x.e[3][2]).sub(x.e[3][3]));
        let h14 = self.e[0][0].sub(self.e[0][1]).add(self.e[1][0]).sub(self.e[1][1]).mul(x.e[0][1].neg().sub(x.e[0][3]));
        let h15 = self.e[0][1].neg().sub(self.e[0][3]).mul(x.e[1][0].neg());
        let h16 = self.e[0][1].add(self.e[0][3]).sub(self.e[1][0]).add(self.e[1][1]).add(self.e[1][2]).add(self.e[1][3]).mul(x.e[0][1].add(x.e[0][3]).sub(x.e[1][0]).add(x.e[1][1]).add(x.e[1][2]).add(x.e[1][3]));
        let h17 = self.e[0][1].add(self.e[0][3]).sub(self.e[1][0]).add(self.e[1][1]).add(self.e[1][2]).add(self.e[1][3]).add(self.e[2][1]).add(self.e[3][0]).sub(self.e[3][1]).mul(x.e[0][1].add(x.e[0][3]).sub(x.e[1][0]).add(x.e[1][1]).add(x.e[1][2]).add(x.e[1][3]).add(x.e[2][1]).add(x.e[3][0]).sub(x.e[3][1]));
        let h18 = self.e[0][1].sub(self.e[1][0]).add(self.e[1][1]).add(self.e[2][1]).add(self.e[3][0]).sub(self.e[3][1]).mul(x.e[0][1].sub(x.e[1][0]).add(x.e[1][1]).add(x.e[2][1]).add(x.e[3][0]).sub(x.e[3][1]));
        let h19 = self.e[0][3].add(self.e[1][2]).add(self.e[1][3]).mul(x.e[0][1].add(x.e[0][3]).sub(x.e[1][0]).add(x.e[1][1]).add(x.e[1][2]).add(x.e[1][3]).add(x.e[2][1]).add(x.e[2][3]).add(x.e[3][0]).sub(x.e[3][1]).sub(x.e[3][2]).sub(x.e[3][3]));
        let h21 = self.e[2][1].add(self.e[3][0]).sub(self.e[3][1]).mul(x.e[0][3].add(x.e[1][2]).add(x.e[1][3]));
        let h31 = self.e[0][0].sub(self.e[0][1]).sub(self.e[0][2]).sub(self.e[0][3]).add(self.e[1][0]).sub(self.e[1][1]).sub(self.e[1][2]).sub(self.e[1][3]).add(self.e[2][0]).sub(self.e[2][1]).sub(self.e[2][2]).sub(self.e[2][3]).sub(self.e[3][0]).add(self.e[3][1]).add(self.e[3][2]).add(self.e[3][3]).mul(x.e[0][3]);
        let h33 = self.e[0][3].mul(x.e[1][0].neg().add(x.e[3][0]));
        let h34 = self.e[0][3].sub(self.e[2][1]).mul(x.e[1][0].neg().add(x.e[3][0]).sub(x.e[3][2]));
        let h35 = self.e[0][2].add(self.e[0][3]).add(self.e[1][2]).add(self.e[1][3]).sub(self.e[2][0]).add(self.e[2][1]).add(self.e[2][2]).add(self.e[2][3]).add(self.e[3][0]).sub(self.e[3][1]).sub(self.e[3][2]).sub(self.e[3][3]).mul(x.e[0][3].sub(x.e[2][1]));
        let h36 = self.e[2][0].neg().add(self.e[2][1]).add(self.e[2][2]).add(self.e[2][3]).add(self.e[3][0]).sub(self.e[3][1]).sub(self.e[3][2]).sub(self.e[3][3]).mul(x.e[2][1]);
        let h37 = self.e[0][1].add(self.e[2][1]).mul(x.e[1][2]);
        let h39 = self.e[0][2].neg().sub(self.e[0][3]).sub(self.e[1][2]).sub(self.e[1][3]).mul(x.e[2][1].add(x.e[2][3]));
        let h40 = self.e[2][1].mul(x.e[1][0].neg().add(x.e[1][2]).add(x.e[3][0]).sub(x.e[3][2]));
        row[0] = h1.sub(h2).sub(h5).add(h9).add(h15).add(h33);
        row[1] = h7.neg().add(h8).sub(h10).add(h11).sub(h14).add(h15).add(h16).sub(h17).add(h18).add(h21).sub(h31).add(h33).sub(h35).sub(h36);
        row[2] = h1.sub(h2).add(h3).sub(h5).add(h33).sub(h34).add(h37).sub(h40);
        row[3] = h8.sub(h10).add(h11).sub(h13).add(h17).sub(h18).sub(h19).sub(h21).add(h31).sub(h33).add(h34).add(h35).add(h36).sub(h37).sub(h39).add(h40);
        proof {
            assert(row@ =~= self.sp_mul4_row0(*x));
        }
        row
    }

    fn mul4_row1<const O: usize>(&self, x: &Matrix<T, O, M>, row: [T; O]) -> (r: [T; O])
        requires
            M == 4 && N == 4 && O == 4,
        ensures
            r@ == self.sp_mul4_row1(*x),
    {
        let mut row = row;
        let h7 = self.e[1][0].neg().add(self.e[1][1]).sub(self.e[1][2]).sub(self.e[1][3]).mul(x.e[1][0].neg().add(x.e[1][1]).sub(x.e[1][2]).sub(x.e[1][3]));
        let h8 = self.e[1][0].neg().add(self.e[1][1]).sub(self.e[1][2]).sub(self.e[1][3]).sub(self.e[3][0]).add(self.e[3][1]).mul(x.e[1][0].neg().add(x.e[1][1]).sub(x.e[1][2]).sub(x.e[1][3]).sub(x.e[3][0]).add(x.e[3][1]));
        let h10 = self.e[1][0].neg().add(self.e[1][1]).sub(self.e[3][0]).add(self.e[3][1]).mul(x.e[1][0].neg().add(x.e[1][1]).sub(x.e[3][0]).add(x.e[3][1]));
        let h11 = self.e[3][0].sub(self.e[3][1]).mul(x.e[1][2].neg().sub(x.e[1][3]));
        let h13 = self.e[1][2].neg().sub(self.e[1][3]).mul(x.e[1][0].neg().add(x.e[1][1]).sub(x.e[1][2]).sub(x.e[1][3]).sub(x.e[3][0]).add(x.e[3][1]).sub(x.e[3][2]).sub(x.e[3][3]));
        let h15 = self.e[0][1].neg().sub(self.e[0][3]).mul(x.e[1][0].neg());
        let h16 = self.e[0][1].add(self.e[0][3]).sub(self.e[1][0]).add(self.e[1][1]).add(self.e[1][2]).add(self.e[1][3]).mul(x.e[0][1].add(x.e[0][3]).sub(x.e[1][0]).add(x.e[1][1]).add(x.e[1][2]).add(x.e[1][3]));
        let h17 = self.e[0][1].add(self.e[0][3]).sub(self.e[1][0]).add(self.e[1][1]).add(self.e[1][2]).add(self.e[1][3]).add(self.e[2][1]).add(self.e[3][0]).sub(self.e[3][1]).mul(x.e[0][1].add(x.e[0][3]).sub(x.e[1][0]).add(x.e[1][1]).add(x.e[1][2]).add(x.e[1][3]).add(x.e[2][1]).add(x.e[3][0]).sub(x.e[3][1]));
        let h18 = self.e[0][1].sub(self.e[1][0]).add(self.e[1][1]).add(self.e[2][1]).add(self.e[3][0]).sub(self.e[3][1]).mul(x.e[0][1].sub(x.e[1][0]).add(x.e[1][1]).add(x.e[2][1]).add(x.e[3][0]).sub(x.e[3][1]));
        let h19 = self.e[0][3].add(self.e[1][2]).add(self.e[1][3]).mul(x.e[0][1].add(x.e[0][3]).sub(x.e[1][0]).add(x.e[1][1]).add(x.e[1][2]).add(x.e[1][3]).add(x.e[2][1]).add(x.e[2][3]).add(x.e[3][0]).sub(x.e[3][1]).sub(x.e[3][2]).sub(x.e[3][3]));
        let h21 = self.e[2][1].add(self.e[3][0]).sub(self.e[3][1]).mul(x.e[0][3].add(x.e[1][2]).add(x.e[1][3]));
        let h22 = self.e[0][1].add(self.e[0][3]).add(self.e[1][1]).add(self.e[1][3]).mul(x.e[0][1].add(x.e[0][3]).add(x.e[1][1]).add(x.e[1][3]));
        let h23 = self.e[0][1].add(self.e[0][3]).add(self.e[1][1]).add(self.e[1][3]).add(self.e[2][1]).sub(self.e[3][1]).mul(x.e[0][1].add(x.e[0][3]).add(x.e[1][1]).add(x.e[1][3]).add(x.e[2][1]).sub(x.e[3][1]));
        let h24 = self.e[0][3].add(self.e[1][3]).mul(x.e[0][1].add(x.e[0][3]).add(x.e[1][1]).add(x.e[1][3]).add(x.e[2][1]).add(x.e[2][3]).sub(x.e[3][1]).sub(x.e[3][3]));
        let h26 = self.e[2][1].sub(self.e[3][1]).mul(x.e[0][3].add(x.e[1][3]));
        let h33 = self.e[0][3].mul(x.e[1][0].neg().add(x.e[3][0]));
        let h34 = self.e[0][3].sub(self.e[2][1]).mul(x.e[1][0].neg().add(x.e[3][0]).sub(x.e[3][2]));
        let h37 = self.e[0][1].add(self.e[2][1]).mul(x.e[1][2]);
        let h40 = self.e[2][1].mul(x.e[1][0].neg().add(x.e[1][2]).add(x.e[3][0]).sub(x.e[3][2]));
        let h41 = self.e[1][0].neg().mul(x.e[0][0].sub(x.e[0][1]).add(x.e[1][0]).sub(x.e[1][1]));
        let h43 = self.e[1][0].neg().add(self.e[3][0]).sub(self.e[3][2]).mul(x.e[0][2].add(x.e[0][3]).add(x.e[1][2]).add(x.e[1][3]).sub(x.e[2][0]).add(x.e[2][1]).add(x.e[2][2]).add(x.e[2][3]).add(x.e[3][0]).sub(x.e[3][1]).sub(x.e[3][2]).sub(x.e[3][3]));
        let h44 = self.e[0][1].add(self.e[1][1]).add(self.e[2][1]).sub(self.e[3][1]).mul(x.e[0][1].add(x.e[1][1]).add(x.e[2][1]).sub(x.e[3][1]));
        let h45 = self.e[1][0].neg().add(self.e[1][2]).add(self.e[3][0]).sub(self.e[3][2]).mul(x.e[2][0].neg().add(x.e[2][1]).add(x.e[2][2]).add(x.e[2][3]).add(x.e[3][0]).sub(x.e[3][1]).sub(x.e[3][2]).sub(x.e[3][3]));
        let h47 = self.e[3][0].sub(self.e[3][2]).mul(x.e[0][2].neg().sub(x.e[0][3]).sub(x.e[1][2]).sub(x.e[1][3]));
        let h49 = self.e[1][2].neg().mul(x.e[2][0].neg().add(x.e[2][1]).add(x.e[3][0]).sub(x.e[3][1]));
        row[0] = h15.neg().sub(h16).add(h17).sub(h18).sub(h21).add(h22).sub(h23).add(h26).sub(h33).sub(h41).add(h44).add(h49);
        row[1] = h7.sub(h8).add(h10).sub(h11).sub(h15).sub(h16).add(h17).sub(h18).sub(h21).add(h22).sub(h23).add(h26).sub(h33).add(h44);
        row[2] = h17.sub(h18).sub(h19).sub(h21).sub(h23).add(h24).add(h26).sub(h33).add(h34).sub(h37).add(h40).sub(h43).add(h44).add(h45).sub(h47).add(h49);
        row[3] = h8.neg().add(h10).add(h11.neg()).add(h13).add(h17.neg()).add(h18).add(h19).add(h21).add(h23).sub(h24).sub(h26).add(h33).sub(h34).add(h37).sub(h40).sub(h44);
        proof {
            assert(row@ =~= self.sp_mul4_row1(*x));
        }
        row
    }

    fn mul4_row2<const O: usize>(&self, x: &Matrix<T, O, M>, row: [T; O]) -> (r: [T; O])
        requires
            M == 4 && N == 4 && O == 4,
        ensures
            r@ == self.sp_mul4_row2(*x),
    {
        let mut row = row;
        let h2 = self.e[0][0].sub(self.e[0][2]).add(self.e[2][0]).mul(x.e[0][0].sub(x.e[0][2]).add(x.e[2][0]));
        let h4 = self.e[2][2].mul(x.e[2][2]);
        let h5 = self.e[2][0].neg().mul(x.e[0][2].neg());
        let h6 = self.e[0][0].sub(self.e[0][2]).add(self.e[2][0]).sub(self.e[2][2]).mul(x.e[2][0].neg());
        let h7 = self.e[1][0].neg().add(self.e[1][1]).sub(self.e[1][2]).sub(self.e[1][3]).mul(x.e[1][0].neg().add(x.e[1][1]).sub(x.e[1][2]).sub(x.e[1][3]));
        let h8 = self.e[1][0].neg().add(self.e[1][1]).sub(self.e[1][2]).sub(self.e[1][3]).sub(self.e[3][0]).add(self.e[3][1]).mul(x.e[1][0].neg().add(x.e[1][1]).sub(x.e[1][2]).sub(x.e[1][3]).sub(x.e[3][0]).add(x.e[3][1]));
        let h9 = self.e[0][0].sub(self.e[0][2]).mul(x.e[0][0].sub(x.e[0][2]));
        let h11 = self.e[3][0].sub(self.e[3][1]).mul(x.e[1][2].neg().sub(x.e[1][3]));
        let h12 = self.e[1][0].neg().add(self.e[1][1]).sub(self.e[1][2]).sub(self.e[1][3]).sub(self.e[3][0]).add(self.e[3][1]).sub(self.e[3][2]).sub(self.e[3][3]).mul(x.e[3][0].sub(x.e[3][1]));
        let h16 = self.e[0][1].add(self.e[0][3]).sub(self.e[1][0]).add(self.e[1][1]).add(self.e[1][2]).add(self.e[1][3]).mul(x.e[0][1].add(x.e[0][3]).sub(x.e[1][0]).add(x.e[1][1]).add(x.e[1][2]).add(x.e[1][3]));
        let h17 = self.e[0][1].add(self.e[0][3]).sub(self.e[1][0]).add(self.e[1][1]).add(self.e[1][2]).add(self.e[1][3]).add(self.e[2][1]).add(self.e[3][0]).sub(self.e[3][1]).mul(x.e[0][1].add(x.e[0][3]).sub(x.e[1][0]).add(x.e[1][1]).add(x.e[1][2]).add(x.e[1][3]).add(x.e[2][1]).add(x.e[3][0]).sub(x.e[3][1]));
        let h20 = self.e[0][1].add(self.e[0][3]).sub(self.e[1][0]).add(self.e[1][1]).add(self.e[1][2]).add(self.e[1][3]).add(self.e[2][1]).add(self.e[2][3]).add(self.e[3][0]).sub(self.e[3][1]).sub(self.e[3][2]).sub(self.e[3][3]).mul(x.e[2][1].add(x.e[3][0]).sub(x.e[3][1]));
        let h21 = self.e[2][1].add(self.e[3][0]).sub(self.e[3][1]).mul(x.e[0][3].add(x.e[1][2]).add(x.e[1][3]));
        let h28 = self.e[2][3].sub(self.e[3][2]).sub(self.e[3][3]).mul(x.e[2][3].sub(x.e[3][2]).sub(x.e[3][3]));
        let h29 = self.e[0][3].add(self.e[2][3]).mul(x.e[3][2].neg());
        let h30 = self.e[0][2].add(self.e[0][3]).add(self.e[1][2]).add(self.e[1][3]).add(self.e[2][2]).add(self.e[2][3]).sub(self.e[3][2]).sub(self.e[3][3]).mul(x.e[0][3].add(x.e[2][3]));
        let h33 = self.e[0][3].mul(x.e[1][0].neg().add(x.e[3][0]));
        let h34 = self.e[0][3].sub(self.e[2][1]).mul(x.e[1][0].neg().add(x.e[3][0]).sub(x.e[3][2]));
        let h35 = self.e[0][2].add(self.e[0][3]).add(self.e[1][2]).add(self.e[1][3]).sub(self.e[2][0]).add(self.e[2][1]).add(self.e[2][2]).add(self.e[2][3]).add(self.e[3][0]).sub(self.e[3][1]).sub(self.e[3][2]).sub(self.e[3][3]).mul(x.e[0][3].sub(x.e[2][1]));
        let h36 = self.e[2][0].neg().add(self.e[2][1]).add(self.e[2][2]).add(self.e[2][3]).add(self.e[3][0]).sub(self.e[3][1]).sub(self.e[3][2]).sub(self.e[3][3]).mul(x.e[2][1]);
        let h38 = self.e[2][1].add(self.e[2][3]).mul(x.e[3][0].sub(x.e[3][2]));
        let h39 = self.e[0][2].neg().sub(self.e[0][3]).sub(self.e[1][2]).sub(self.e[1][3]).mul(x.e[2][1].add(x.e[2][3]));
        let h40 = self.e[2][1].mul(x.e[1][0].neg().add(x.e[1][2]).add(x.e[3][0]).sub(x.e[3][2]));
        let h46 = self.e[2][0].neg().add(self.e[2][1]).add(self.e[3][0]).sub(self.e[3][1]).mul(x.e[0][1].neg().sub(x.e[2][1]));
        let h48 = self.e[3][2].neg().sub(self.e[3][3]).mul(x.e[3][2].neg().sub(x.e[3][3]));
        row[0] = h2.add(h5).add(h6).sub(h9).sub(h29).sub(h33).add(h34).add(h38);
        row[1] = h7.neg().add(h8).add(h11).add(h12).sub(h16).add(h17).sub(h20).sub(h21).sub(h29).sub(h33).add(h34).add(h36).add(h38).add(h46);
        row[2] = h4.add(h5).sub(h29).sub(h33).add(h34).add(h40);
        row[3] = h11.add(h21).sub(h28).add(h29).add(h30).add(h33).sub(h34).sub(h35).sub(h36).add(h39).sub(h40).add(h48);
        proof {
            assert(row@ =~= self.sp_mul4_row2(*x));
        }
        row
    }

    fn mul4_row3<const O: usize>(&self, x: &Matrix<T, O, M>, row: [T; O]) -> (r: [T; O])
        requires
            M == 4 && N == 4 && O == 4,
        ensures
            r@ == self.sp_mul4_row3(*x),
    {
        let mut row = row;
        let h7 = self.e[1][0].neg().add(self.e[1][1]).sub(self.e[1][2]).sub(self.e[1][3]).mul(x.e[1][0].neg().add(x.e[1][1]).sub(x.e[1][2]).sub(x.e[1][3]));
        let h8 = self.e[1][0].neg().add(self.e[1][1]).sub(self.e[1][2]).sub(self.e[1][3]).sub(self.e[3][0]).add(self.e[3][1]).mul(x.e[1][0].neg().add(x.e[1][1]).sub(x.e[1][2]).sub(x.e[1][3]).sub(x.e[3][0]).add(x.e[3][1]));
        let h11 = self.e[3][0].sub(self.e[3][1]).mul(x.e[1][2].neg().sub(x.e[1][3]));
        let h12 = self.e[1][0].neg().add(self.e[1][1]).sub(self.e[1][2]).sub(self.e[1][3]).sub(self.e[3][0]).add(self.e[3][1]).sub(self.e[3][2]).sub(self.e[3][3]).mul(x.e[3][0].sub(x.e[3][1]));
        let h16 = self.e[0][1].add(self.e[0][3]).sub(self.e[1][0]).add(self.e[1][1]).add(self.e[1][2]).add(self.e[1][3]).mul(x.e[0][1].add(x.e[0][3]).sub(x.e[1][0]).add(x.e[1][1]).add(x.e[1][2]).add(x.e[1][3]));
        let h17 = self.e[0][1].add(self.e[0][3]).sub(self.e[1][0]).add(self.e[1][1]).add(self.e[1][2]).add(self.e[1][3]).add(self.e[2][1]).add(self.e[3][0]).sub(self.e[3][1]).mul(x.e[0][1].add(x.e[0][3]).sub(x.e[1][0]).add(x.e[1][1]).add(x.e[1][2]).add(x.e[1][3]).add(x.e[2][1]).add(x.e[3][0]).sub(x.e[3][1]));
        let h20 = self.e[0][1].add(self.e[0][3]).sub(self.e[1][0]).add(self.e[1][1]).add(self.e[1][2]).add(self.e[1][3]).add(self.e[2][1]).add(self.e[2][3]).add(self.e[3][0]).sub(self.e[3][1]).sub(self.e[3][2]).sub(self.e[3][3]).mul(x.e[2][1].add(x.e[3][0]).sub(x.e[3][1]));
        let h21 = self.e[2][1].add(self.e[3][0]).sub(self.e[3][1]).mul(x.e[0][3].add(x.e[1][2]).add(x.e[1][3]));
        let h22 = self.e[0][1].add(self.e[0][3]).add(self.e[1][1]).add(self.e[1][3]).mul(x.e[0][1].add(x.e[0][3]).add(x.e[1][1]).add(x.e[1][3]));
        let h23 = self.e[0][1].add(self.e[0][3]).add(self.e[1][1]).add(self.e[1][3]).add(self.e[2][1]).sub(self.e[3][1]).mul(x.e[0][1].add(x.e[0][3]).add(x.e[1][1]).add(x.e[1][3]).add(x.e[2][1]).sub(x.e[3][1]));
        let h25 = self.e[0][1].add(self.e[0][3]).add(self.e[1][1]).add(self.e[1][3]).add(self.e[2][1]).add(self.e[2][3]).sub(self.e[3][1]).sub(self.e[3][3]).mul(x.e[2][1].sub(x.e[3][1]));
        let h26 = self.e[2][1].sub(self.e[3][1]).mul(x.e[0][3].add(x.e[1][3]));
        let h27 = self.e[2][3].sub(self.e[3][3]).mul(x.e[2][3].sub(x.e[3][3]));
        let h28 = self.e[2][3].sub(self.e[3][2]).sub(self.e[3][3]).mul(x.e[2][3].sub(x.e[3][2]).sub(x.e[3][3]));
        let h29 = self.e[0][3].add(self.e[2][3]).mul(x.e[3][2].neg());
        let h32 = self.e[3][2].neg().mul(x.e[0][2].add(x.e[0][3]).add(x.e[1][2]).add(x.e[1][3]).add(x.e[2][2]).add(x.e[2][3]).sub(x.e[3][2]).sub(x.e[3][3]));
        let h33 = self.e[0][3].mul(x.e[1][0].neg().add(x.e[3][0]));
        let h34 = self.e[0][3].sub(self.e[2][1]).mul(x.e[1][0].neg().add(x.e[3][0]).sub(x.e[3][2]));
        let h38 = self.e[2][1].add(self.e[2][3]).mul(x.e[3][0].sub(x.e[3][2]));
        let h40 = self.e[2][1].mul(x.e[1][0].neg().add(x.e[1][2]).add(x.e[3][0]).sub(x.e[3][2]));
        let h41 = self.e[1][0].neg().mul(x.e[0][0].sub(x.e[0][1]).add(x.e[1][0]).sub(x.e[1][1]));
        let h42 = self.e[1][0].neg().add(self.e[3][0]).mul(x.e[0][0].sub(x.e[0][1]).sub(x.e[0][2]).sub(x.e[0][3]).add(x.e[1][0]).sub(x.e[1][1]).sub(x.e[1][2]).sub(x.e[1][3]).add(x.e[2][0]).sub(x.e[2][1]).sub(x.e[2][2]).sub(x.e[2][3]).sub(x.e[3][0]).add(x.e[3][1]).add(x.e[3][2]).add(x.e[3][3]));
        let h43 = self.e[1][0].neg().add(self.e[3][0]).sub(self.e[3][2]).mul(x.e[0][2].add(x.e[0][3]).add(x.e[1][2]).add(x.e[1][3]).sub(x.e[2][0]).add(x.e[2][1]).add(x.e[2][2]).add(x.e[2][3]).add(x.e[3][0]).sub(x.e[3][1]).sub(x.e[3][2]).sub(x.e[3][3]));
        let h47 = self.e[3][0].sub(self.e[3][2]).mul(x.e[0][2].neg().sub(x.e[0][3]).sub(x.e[1][2]).sub(x.e[1][3]));
        let h48 = self.e[3][2].neg().sub(self.e[3][3]).mul(x.e[3][2].neg().sub(x.e[3][3]));
        row[0] = h16.neg().add(h17).sub(h20).sub(h21).add(h22).sub(h23).add(h25).add(h26).sub(h29).sub(h32).sub(h33).add(h34).add(h38).sub(h41).add(h42).add(h43);
        row[1] = h7.neg().add(h8).add(h11).add(h12).sub(h16).add(h17).sub(h20).sub(h21).add(h22).sub(h23).add(h25).add(h26).sub(h29).sub(h33).add(h34).add(h38);
        row[2] = h21.neg().add(h26).sub(h27).add(h28).sub(h29).sub(h32).sub(h33).add(h34).add(h40).sub(h47);
        row[3] = h11.add(h21).sub(h26).add(h27).sub(h28).add(h29).add(h33).sub(h34).sub(h40).add(h48);
        proof {
            assert(row@ =~= self.sp_mul4_row3(*x));
        }
        row
    }

    fn mul4<const O: usize>(&self, x: &Matrix<T, O, M>) -> (r: Matrix<T, O, N>)
        requires
            M == 4 && N == 4 && O == 4,
        ensures
            r.sp_rows() == self.sp_mul4(*x),
    {
        let z = T::zero();
        let zrow = [z; O];
        let mut e = [zrow; N];
        e[0] = self.mul4_row0(x, e[0]);
        e[1] = self.mul4_row1(x, e[1]);
        e[2] = self.mul4_row2(x, e[2]);
        e[3] = self.mul4_row3(x, e[3]);
        let res = Matrix { e };
        proof {
            assert(res.sp_rows() =~~= self.sp_mul4(*x));
        }
        res
    }

    /// The matrix product. Square shapes of two, three and four use the
    /// fast few-multiplication schedules, whose contracts pin every entry
    /// to the exact term combination computed; every other shape takes
    /// the plain triple loop, each entry the ordered sum of row-by-column
    /// products onto zero.
    pub fn mul<const O: usize>(&self, x: &Matrix<T, O, M>) -> (r: Matrix<T, O, N>)
        ensures
            M == 2 && N == 2 && O == 2 ==> r.sp_rows() == self.sp_mul2(*x),
            M == 3 && N == 3 && O == 3 ==> r.sp_rows() == self.sp_mul3(*x),
            M == 4 && N == 4 && O == 4 ==> r.sp_rows() == self.sp_mul4(*x),
            !(M == 2 && N == 2 && O == 2) && !(M == 3 && N == 3 && O == 3) && !(M == 4 && N == 4
                && O == 4) ==> forall|j: int, i: int|
                0 <= j < N && 0 <= i < O ==> #[trigger] r.e@[j]@[i] == self.sp_mul_entry(
                    *x,
                    j,
                    i,
                    M as nat,
                ),
    {
        if M == 2 && N == 2 && O == 2 {
            self.mul2(x)
        } else if M == 3 && N == 3 && O == 3 {
            self.mul3(x)
        } else if M == 4 && N == 4 && O == 4 {
            self.mul4(x)
        } else {
            let z = T::zero();
            let zrow = [z; O];
            let mut e = [zrow; N];
            for j in 0..N
                invariant
                    e@.len() == N,
                    forall|j2: int, i2: int|
                        0 <= j2 < j && 0 <= i2 < O ==> #[trigger] e@[j2]@[i2] == self.sp_mul_entry(
                            *x,
                            j2,
                            i2,
                            M as nat,
                        ),
            {
                let mut row = [z; O];
                for i in 0..O
                    invariant
                        j < N,
                        row@.len() == O,
                        forall|i2: int|
                            0 <= i2 < i ==> #[trigger] row@[i2] == self.sp_mul_entry(
                                *x,
                                j as int,
                                i2,
                                M as nat,
                            ),
                {
                    let mut acc = T::zero();
                    for k in 0..M
                        invariant
                            j < N,
                            i < O,
                            acc == self.sp_mul_entry(*x, j as int, i as int, k as nat),
                    {
                        acc = acc.add(self.e[j][k].mul(x.e[k][i]));
                    }
                    row[i] = acc;
                }
                e[j] = row;
            }
            Matrix { e }
        }
    }

    /// Matrix addition, entrywise.
    pub fn add(&self, x: &Matrix<T, M, N>) -> (r: Matrix<T, M, N>)
        ensures
            forall|j: int, i: int|
                0 <= j < N && 0 <= i < M ==> #[trigger] r.e@[j]@[i] == self.e@[j]@[i].sp_add(
                    x.e@[j]@[i],
                ),
    {
        let z = T::zero();
        let zrow = [z; M];
        let mut e = [zrow; N];
        for j in 0..N
            invariant
                e@.len() == N,
                forall|j2: int, i2: int|
                    0 <= j2 < j && 0 <= i2 < M ==> #[trigger] e@[j2]@[i2] == self.e@[j2]@[
                        i2
                    ].sp_add(x.e@[j2]@[i2]),
        {
            let mut row = [z; M];
            for i in 0..M
                invariant
                    j < N,
                    row@.len() == M,
                    forall|i2: int|
                        0 <= i2 < i ==> #[trigger] row@[i2] == self.e@[j as int]@[i2].sp_add(
                            x.e@[j as int]@[i2],
                        ),
            {
                row[i] = self.e[j][i].add(x.e[j][i]);
            }
            e[j] = row;
        }
        Matrix { e }
    }
}

} // verus!
