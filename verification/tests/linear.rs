use rootfind::algebra::{Field, Group, Monoid, Ring, Semiring};
use rootfind::element::Element;
use rootfind::float::Float;
use rootfind::matrix::Matrix;
use rootfind::natural::Natural;
use rootfind::vector::Vector;

#[derive(Copy, Clone, Debug, PartialEq, PartialOrd)]
struct R(f64);

impl Element for R {}

impl Monoid for R {
    fn sp_add(self, rhs: Self) -> Self {
        R(self.0 + rhs.0)
    }
    fn sp_zero() -> Self {
        R(0.0)
    }
    fn add(self, rhs: Self) -> Self {
        R(self.0 + rhs.0)
    }
    fn zero() -> Self {
        R(0.0)
    }
}

impl Group for R {
    fn sp_sub(self, rhs: Self) -> Self {
        R(self.0 - rhs.0)
    }
    fn sp_neg(self) -> Self {
        R(-self.0)
    }
    fn sub(self, rhs: Self) -> Self {
        R(self.0 - rhs.0)
    }
    fn neg(self) -> Self {
        R(-self.0)
    }
}

impl Semiring for R {
    fn sp_mul(self, rhs: Self) -> Self {
        R(self.0 * rhs.0)
    }
    fn sp_one() -> Self {
        R(1.0)
    }
    fn mul(self, rhs: Self) -> Self {
        R(self.0 * rhs.0)
    }
    fn one() -> Self {
        R(1.0)
    }
}

impl Ring for R {}

impl Field for R {
    fn sp_div(self, rhs: Self) -> Self {
        R(self.0 / rhs.0)
    }
    fn sp_recip(self) -> Self {
        R(self.0.recip())
    }
    fn div(self, rhs: Self) -> Self {
        R(self.0 / rhs.0)
    }
    fn recip(self) -> Self {
        R(self.0.recip())
    }
}

impl Natural for R {
    fn sp_lt(self, rhs: Self) -> bool {
        self.0 < rhs.0
    }
    fn sp_le(self, rhs: Self) -> bool {
        self.0 <= rhs.0
    }
    fn sp_eq_val(self, rhs: Self) -> bool {
        self.0 == rhs.0
    }
    fn sp_floor(self) -> Self {
        R(self.0.floor())
    }
    fn sp_ceil(self) -> Self {
        R(self.0.ceil())
    }
    fn sp_abs(self) -> Self {
        R(self.0.abs())
    }
    fn sp_powi(self, power: i32) -> Self {
        R(self.0.powi(power))
    }
    fn sp_sin(self) -> Self {
        R(self.0.sin())
    }
    fn sp_cos(self) -> Self {
        R(self.0.cos())
    }
    fn sp_tan(self) -> Self {
        R(self.0.tan())
    }
    fn sp_atan2(self, other: Self) -> Self {
        R(self.0.atan2(other.0))
    }
    fn lt(self, rhs: Self) -> bool {
        self.0 < rhs.0
    }
    fn le(self, rhs: Self) -> bool {
        self.0 <= rhs.0
    }
    fn eq_val(self, rhs: Self) -> bool {
        self.0 == rhs.0
    }
    fn floor(self) -> Self {
        R(self.0.floor())
    }
    fn ceil(self) -> Self {
        R(self.0.ceil())
    }
    fn abs(self) -> Self {
        R(self.0.abs())
    }
    fn powi(self, power: i32) -> Self {
        R(self.0.powi(power))
    }
    fn sin(self) -> Self {
        R(self.0.sin())
    }
    fn cos(self) -> Self {
        R(self.0.cos())
    }
    fn tan(self) -> Self {
        R(self.0.tan())
    }
    fn atan2(self, other: Self) -> Self {
        R(self.0.atan2(other.0))
    }
}

impl Float for R {
    fn sp_nan() -> Self {
        R(f64::NAN)
    }
    fn sp_epsilon() -> Self {
        R(f64::EPSILON)
    }
    fn sp_sqrt(self) -> Self {
        R(self.0.sqrt())
    }
    fn sp_cbrt(self) -> Self {
        R(self.0.cbrt())
    }
    fn sp_sin_cos(self) -> (Self, Self) {
        let (s, c) = self.0.sin_cos();
        (R(s), R(c))
    }
    fn sp_mul_add(self, a: Self, b: Self) -> Self {
        R(self.0.mul_add(a.0, b.0))
    }
    fn sp_copysign(self, sign: Self) -> Self {
        R(self.0.copysign(sign.0))
    }
    fn sp_signum(self) -> Self {
        R(self.0.signum())
    }
    fn sp_min(self, other: Self) -> Self {
        R(self.0.min(other.0))
    }
    fn sp_max(self, other: Self) -> Self {
        R(self.0.max(other.0))
    }
    fn sp_is_nan(self) -> bool {
        self.0.is_nan()
    }
    fn sp_is_finite(self) -> bool {
        self.0.is_finite()
    }
    fn nan() -> Self {
        R(f64::NAN)
    }
    fn epsilon() -> Self {
        R(f64::EPSILON)
    }
    fn sqrt(self) -> Self {
        R(self.0.sqrt())
    }
    fn cbrt(self) -> Self {
        R(self.0.cbrt())
    }
    fn sin_cos(self) -> (Self, Self) {
        let (s, c) = self.0.sin_cos();
        (R(s), R(c))
    }
    fn mul_add(self, a: Self, b: Self) -> Self {
        R(self.0.mul_add(a.0, b.0))
    }
    fn copysign(self, sign: Self) -> Self {
        R(self.0.copysign(sign.0))
    }
    fn signum(self) -> Self {
        R(self.0.signum())
    }
    fn min(self, other: Self) -> Self {
        R(self.0.min(other.0))
    }
    fn max(self, other: Self) -> Self {
        R(self.0.max(other.0))
    }
    fn is_nan(self) -> bool {
        self.0.is_nan()
    }
    fn is_finite(self) -> bool {
        self.0.is_finite()
    }
}

#[derive(Copy, Clone, Debug, PartialEq, PartialOrd)]
struct F(f32);

impl Element for F {}

impl Monoid for F {
    fn sp_add(self, rhs: Self) -> Self {
        F(self.0 + rhs.0)
    }
    fn sp_zero() -> Self {
        F(0.0)
    }
    fn add(self, rhs: Self) -> Self {
        F(self.0 + rhs.0)
    }
    fn zero() -> Self {
        F(0.0)
    }
}

impl Group for F {
    fn sp_sub(self, rhs: Self) -> Self {
        F(self.0 - rhs.0)
    }
    fn sp_neg(self) -> Self {
        F(-self.0)
    }
    fn sub(self, rhs: Self) -> Self {
        F(self.0 - rhs.0)
    }
    fn neg(self) -> Self {
        F(-self.0)
    }
}

impl Semiring for F {
    fn sp_mul(self, rhs: Self) -> Self {
        F(self.0 * rhs.0)
    }
    fn sp_one() -> Self {
        F(1.0)
    }
    fn mul(self, rhs: Self) -> Self {
        F(self.0 * rhs.0)
    }
    fn one() -> Self {
        F(1.0)
    }
}

impl Ring for F {}

impl Field for F {
    fn sp_div(self, rhs: Self) -> Self {
        F(self.0 / rhs.0)
    }
    fn sp_recip(self) -> Self {
        F(self.0.recip())
    }
    fn div(self, rhs: Self) -> Self {
        F(self.0 / rhs.0)
    }
    fn recip(self) -> Self {
        F(self.0.recip())
    }
}

impl Natural for F {
    fn sp_lt(self, rhs: Self) -> bool {
        self.0 < rhs.0
    }
    fn sp_le(self, rhs: Self) -> bool {
        self.0 <= rhs.0
    }
    fn sp_eq_val(self, rhs: Self) -> bool {
        self.0 == rhs.0
    }
    fn sp_floor(self) -> Self {
        F(self.0.floor())
    }
    fn sp_ceil(self) -> Self {
        F(self.0.ceil())
    }
    fn sp_abs(self) -> Self {
        F(self.0.abs())
    }
    fn sp_powi(self, power: i32) -> Self {
        F(self.0.powi(power))
    }
    fn sp_sin(self) -> Self {
        F(self.0.sin())
    }
    fn sp_cos(self) -> Self {
        F(self.0.cos())
    }
    fn sp_tan(self) -> Self {
        F(self.0.tan())
    }
    fn sp_atan2(self, other: Self) -> Self {
        F(self.0.atan2(other.0))
    }
    fn lt(self, rhs: Self) -> bool {
        self.0 < rhs.0
    }
    fn le(self, rhs: Self) -> bool {
        self.0 <= rhs.0
    }
    fn eq_val(self, rhs: Self) -> bool {
        self.0 == rhs.0
    }
    fn floor(self) -> Self {
        F(self.0.floor())
    }
    fn ceil(self) -> Self {
        F(self.0.ceil())
    }
    fn abs(self) -> Self {
        F(self.0.abs())
    }
    fn powi(self, power: i32) -> Self {
        F(self.0.powi(power))
    }
    fn sin(self) -> Self {
        F(self.0.sin())
    }
    fn cos(self) -> Self {
        F(self.0.cos())
    }
    fn tan(self) -> Self {
        F(self.0.tan())
    }
    fn atan2(self, other: Self) -> Self {
        F(self.0.atan2(other.0))
    }
}

impl Float for F {
    fn sp_nan() -> Self {
        F(f32::NAN)
    }
    fn sp_epsilon() -> Self {
        F(f32::EPSILON)
    }
    fn sp_sqrt(self) -> Self {
        F(self.0.sqrt())
    }
    fn sp_cbrt(self) -> Self {
        F(self.0.cbrt())
    }
    fn sp_sin_cos(self) -> (Self, Self) {
        let (s, c) = self.0.sin_cos();
        (F(s), F(c))
    }
    fn sp_mul_add(self, a: Self, b: Self) -> Self {
        F(self.0.mul_add(a.0, b.0))
    }
    fn sp_copysign(self, sign: Self) -> Self {
        F(self.0.copysign(sign.0))
    }
    fn sp_signum(self) -> Self {
        F(self.0.signum())
    }
    fn sp_min(self, other: Self) -> Self {
        F(self.0.min(other.0))
    }
    fn sp_max(self, other: Self) -> Self {
        F(self.0.max(other.0))
    }
    fn sp_is_nan(self) -> bool {
        self.0.is_nan()
    }
    fn sp_is_finite(self) -> bool {
        self.0.is_finite()
    }
    fn nan() -> Self {
        F(f32::NAN)
    }
    fn epsilon() -> Self {
        F(f32::EPSILON)
    }
    fn sqrt(self) -> Self {
        F(self.0.sqrt())
    }
    fn cbrt(self) -> Self {
        F(self.0.cbrt())
    }
    fn sin_cos(self) -> (Self, Self) {
        let (s, c) = self.0.sin_cos();
        (F(s), F(c))
    }
    fn mul_add(self, a: Self, b: Self) -> Self {
        F(self.0.mul_add(a.0, b.0))
    }
    fn copysign(self, sign: Self) -> Self {
        F(self.0.copysign(sign.0))
    }
    fn signum(self) -> Self {
        F(self.0.signum())
    }
    fn min(self, other: Self) -> Self {
        F(self.0.min(other.0))
    }
    fn max(self, other: Self) -> Self {
        F(self.0.max(other.0))
    }
    fn is_nan(self) -> bool {
        self.0.is_nan()
    }
    fn is_finite(self) -> bool {
        self.0.is_finite()
    }
}

#[derive(Copy, Clone, Debug, PartialEq, PartialOrd)]
struct CF64 {
    re: f64,
    im: f64,
}

fn cf64(re: f64, im: f64) -> CF64 {
    CF64 { re, im }
}

impl Element for CF64 {}

impl Monoid for CF64 {
    fn sp_add(self, rhs: Self) -> Self {
        CF64 { re: self.re + rhs.re, im: self.im + rhs.im }
    }
    fn sp_zero() -> Self {
        CF64 { re: 0.0, im: 0.0 }
    }
    fn add(self, rhs: Self) -> Self {
        CF64 { re: self.re + rhs.re, im: self.im + rhs.im }
    }
    fn zero() -> Self {
        CF64 { re: 0.0, im: 0.0 }
    }
}

impl Group for CF64 {
    fn sp_sub(self, rhs: Self) -> Self {
        CF64 { re: self.re - rhs.re, im: self.im - rhs.im }
    }
    fn sp_neg(self) -> Self {
        CF64 { re: -self.re, im: -self.im }
    }
    fn sub(self, rhs: Self) -> Self {
        CF64 { re: self.re - rhs.re, im: self.im - rhs.im }
    }
    fn neg(self) -> Self {
        CF64 { re: -self.re, im: -self.im }
    }
}

impl Semiring for CF64 {
    fn sp_mul(self, rhs: Self) -> Self {
        CF64 {
            re: self.re * rhs.re - self.im * rhs.im,
            im: self.re * rhs.im + self.im * rhs.re,
        }
    }
    fn sp_one() -> Self {
        CF64 { re: 1.0, im: 0.0 }
    }
    fn mul(self, rhs: Self) -> Self {
        CF64 {
            re: self.re * rhs.re - self.im * rhs.im,
            im: self.re * rhs.im + self.im * rhs.re,
        }
    }
    fn one() -> Self {
        CF64 { re: 1.0, im: 0.0 }
    }
}

impl Ring for CF64 {}

impl Field for CF64 {
    fn sp_div(self, rhs: Self) -> Self {
        let denom = rhs.re * rhs.re + rhs.im * rhs.im;
        CF64 {
            re: (self.re * rhs.re + self.im * rhs.im) / denom,
            im: (self.im * rhs.re - self.re * rhs.im) / denom,
        }
    }
    fn sp_recip(self) -> Self {
        unreachable!()
    }
    fn div(self, rhs: Self) -> Self {
        let denom = rhs.re * rhs.re + rhs.im * rhs.im;
        CF64 {
            re: (self.re * rhs.re + self.im * rhs.im) / denom,
            im: (self.im * rhs.re - self.re * rhs.im) / denom,
        }
    }
    fn recip(self) -> Self {
        unreachable!()
    }
}

impl Natural for CF64 {
    fn sp_lt(self, rhs: Self) -> bool {
        (self.re, self.im) < (rhs.re, rhs.im)
    }
    fn sp_le(self, rhs: Self) -> bool {
        (self.re, self.im) <= (rhs.re, rhs.im)
    }
    fn sp_eq_val(self, rhs: Self) -> bool {
        self.re == rhs.re && self.im == rhs.im
    }
    fn sp_floor(self) -> Self {
        unreachable!()
    }
    fn sp_ceil(self) -> Self {
        unreachable!()
    }
    fn sp_abs(self) -> Self {
        unreachable!()
    }
    fn sp_powi(self, power: i32) -> Self {
        self.powi(power)
    }
    fn sp_sin(self) -> Self {
        unreachable!()
    }
    fn sp_cos(self) -> Self {
        unreachable!()
    }
    fn sp_tan(self) -> Self {
        unreachable!()
    }
    fn sp_atan2(self, _other: Self) -> Self {
        unreachable!()
    }
    fn lt(self, rhs: Self) -> bool {
        (self.re, self.im) < (rhs.re, rhs.im)
    }
    fn le(self, rhs: Self) -> bool {
        (self.re, self.im) <= (rhs.re, rhs.im)
    }
    fn eq_val(self, rhs: Self) -> bool {
        self.re == rhs.re && self.im == rhs.im
    }
    fn floor(self) -> Self {
        unreachable!()
    }
    fn ceil(self) -> Self {
        unreachable!()
    }
    fn abs(self) -> Self {
        unreachable!()
    }
    fn powi(self, power: i32) -> Self {
        let mut result = CF64 { re: 1.0, im: 0.0 };
        for _ in 0..power {
            result = result.mul(self);
        }
        result
    }
    fn sin(self) -> Self {
        unreachable!()
    }
    fn cos(self) -> Self {
        unreachable!()
    }
    fn tan(self) -> Self {
        unreachable!()
    }
    fn atan2(self, _other: Self) -> Self {
        unreachable!()
    }
}

impl Float for CF64 {
    fn sp_nan() -> Self {
        CF64 { re: f64::NAN, im: f64::NAN }
    }
    fn sp_epsilon() -> Self {
        CF64 { re: f64::EPSILON, im: 0.0 }
    }
    fn sp_sqrt(self) -> Self {
        self.sqrt()
    }
    fn sp_cbrt(self) -> Self {
        unreachable!()
    }
    fn sp_sin_cos(self) -> (Self, Self) {
        unreachable!()
    }
    fn sp_mul_add(self, _a: Self, _b: Self) -> Self {
        unreachable!()
    }
    fn sp_copysign(self, _sign: Self) -> Self {
        unreachable!()
    }
    fn sp_signum(self) -> Self {
        unreachable!()
    }
    fn sp_min(self, _other: Self) -> Self {
        unreachable!()
    }
    fn sp_max(self, _other: Self) -> Self {
        unreachable!()
    }
    fn sp_is_nan(self) -> bool {
        self.re.is_nan() || self.im.is_nan()
    }
    fn sp_is_finite(self) -> bool {
        self.re.is_finite() && self.im.is_finite()
    }
    fn nan() -> Self {
        CF64 { re: f64::NAN, im: f64::NAN }
    }
    fn epsilon() -> Self {
        CF64 { re: f64::EPSILON, im: 0.0 }
    }
    fn sqrt(self) -> Self {
        if self.re == 0.0 && self.im == 0.0 {
            CF64 { re: 0.0, im: 0.0 }
        } else {
            let mdl = (self.re * self.re + self.im * self.im).sqrt();
            let arg = self.im.atan2(self.re);
            let sq_mdl = mdl.sqrt();
            let harg = arg / 2.0;
            CF64 { re: sq_mdl * harg.cos(), im: sq_mdl * harg.sin() }
        }
    }
    fn cbrt(self) -> Self {
        unreachable!()
    }
    fn sin_cos(self) -> (Self, Self) {
        unreachable!()
    }
    fn mul_add(self, _a: Self, _b: Self) -> Self {
        unreachable!()
    }
    fn copysign(self, _sign: Self) -> Self {
        unreachable!()
    }
    fn signum(self) -> Self {
        unreachable!()
    }
    fn min(self, _other: Self) -> Self {
        unreachable!()
    }
    fn max(self, _other: Self) -> Self {
        unreachable!()
    }
    fn is_nan(self) -> bool {
        self.re.is_nan() || self.im.is_nan()
    }
    fn is_finite(self) -> bool {
        self.re.is_finite() && self.im.is_finite()
    }
}

fn rv<const N: usize>(b: [f64; N]) -> Vector<R, N> {
    let mut w = [R(0.0); N];
    let mut i: usize = 0;
    while i < N {
        w[i] = R(b[i]);
        i += 1;
    }
    Vector::new(w)
}

fn rm<const M: usize, const N: usize>(e: [[f64; M]; N]) -> Matrix<R, M, N> {
    let mut w = [[R(0.0); M]; N];
    let mut j: usize = 0;
    while j < N {
        let mut i: usize = 0;
        while i < M {
            w[j][i] = R(e[j][i]);
            i += 1;
        }
        j += 1;
    }
    Matrix::new(w)
}

fn fm<const M: usize, const N: usize>(e: [[f32; M]; N]) -> Matrix<F, M, N> {
    let mut w = [[F(0.0); M]; N];
    let mut j: usize = 0;
    while j < N {
        let mut i: usize = 0;
        while i < M {
            w[j][i] = F(e[j][i]);
            i += 1;
        }
        j += 1;
    }
    Matrix::new(w)
}

#[test]
fn test_vector() {
    let v1 = rv([1., 2., 3.]);
    let v2 = rv([4., 5., 6.]);

    assert_eq!(v1.magnitude(), R(14_f64.sqrt()));
    assert_eq!(v1.normalize().magnitude(), R(1.));
    assert_eq!(v1.row(), rm([[1., 2., 3.]]));
    assert_eq!(v1.column(), rm([[1.], [2.], [3.]]));

    assert_eq!(v1.add(v2), rv([5., 7., 9.]));
    assert_eq!(v1.sub(v2), rv([-3., -3., -3.]));
    assert_eq!(v1.mul(R(2.)), rv([2., 4., 6.]));
    assert_eq!(v2.mul(R(2.)), rv([8., 10., 12.]));
}

#[test]
fn test_cross() {
    let v1 = rv([1., 2.]);
    let v2 = rv([3., 4.]);
    assert_eq!(v1.cross(&v2), R(-2.));

    let v1 = rv([3., 4.]);
    let v2 = rv([1., 2.]);
    assert_eq!(v1.cross(&v2), R(2.));
}

#[test]
fn det_2x2() {
    let a = rm([[1., 2.], [3., 4.]]);
    let b = R(-2.);
    assert_eq!(a.determinant(), b);
}

#[test]
fn det_3x3() {
    let a = rm([[1., 2., 3.], [4., 5., 3.], [7., 8., 9.]]);
    let b = R(-18.);
    assert_eq!(a.determinant(), b);
}

#[test]
fn mult_2x2() {
    let a = rm([[1., 2.], [3., 4.]]);
    let b = rm([[5., 6.], [7., 8.]]);
    let c = rm([[19., 22.], [43., 50.]]);
    assert_eq!(a.mul(&b), c);
}

#[test]
fn mult_3x3() {
    let a = rm([[1., 2., 3.], [4., 5., 6.], [7., 8., 9.]]);
    let b = rm([[9., 8., 7.], [6., 5., 4.], [3., 2., 1.]]);
    let c = rm([[30., 24., 18.], [84., 69., 54.], [138., 114., 90.]]);
    assert_eq!(a.mul(&b), c);
}

#[test]
fn mult_4x4() {
    let a = rm([
        [1., 2., 3., 4.],
        [5., 6., 7., 8.],
        [9., 10., 11., 12.],
        [13., 14., 15., 16.],
    ]);
    let b = rm([
        [17., 18., 19., 20.],
        [21., 22., 23., 24.],
        [25., 26., 27., 28.],
        [29., 30., 31., 32.],
    ]);
    let c = rm([
        [250., 260., 270., 280.],
        [618., 644., 670., 696.],
        [986., 1028., 1070., 1112.],
        [1354., 1412., 1470., 1528.],
    ]);
    assert_eq!(a.mul(&b), c);
}

#[test]
fn more_matrix_tests_assorted() {
    let x = fm::<2, 3>([[1., 2.], [3., 4.], [5., 6.]]);
    assert_eq!(x.add(&Matrix::zero()), x);

    let y = rm([[1., 2.], [3., 4.]]);
    assert_eq!(y.mul(&Matrix::<R, 2, 2>::identity()).determinant(), R(-2.0));

    let a = rm([
        [1., 2., 3., 4.],
        [5., 6., 7., 8.],
        [9., 10., 11., 12.],
        [13., 14., 15., 16.],
    ]);
    let b = rm([
        [17., 18., 19., 20.],
        [21., 22., 23., 24.],
        [25., 26., 27., 28.],
        [29., 30., 31., 32.],
    ]);
    let c = rm([
        [250., 260., 270., 280.],
        [618., 644., 670., 696.],
        [986., 1028., 1070., 1112.],
        [1354., 1412., 1470., 1528.],
    ]);
    assert_eq!(a.mul(&b), c);
}

#[test]
fn test_complex_vectors() {
    let vec_real = rv([1.0, 2.0]);
    let vec_complex = Vector::new([cf64(1.0, 0.0), cf64(2.0, 0.0)]);

    assert_eq!(vec_real.magnitude(), R(5_f64.sqrt()));
    assert_eq!(vec_complex.magnitude(), cf64(5_f64.sqrt(), 0.0));
}
