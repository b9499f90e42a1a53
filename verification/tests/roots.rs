use rootfind::algebra::{Field, Group, Monoid, Ring, Semiring};
use rootfind::element::Element;
use rootfind::float::Float;
use rootfind::natural::Natural;
use rootfind::polynomial::Polynomial;
use rootfind::solvers;

#[derive(Copy, Clone, Debug, PartialEq, PartialOrd)]
struct R(f64);

impl Element for R {}

impl Monoid for R {
    fn sp_add(self, rhs: Self) -> Self {
        R(self.0 + rhs.0)
    }
    fn sp_zero() -> Self {
        R(0.0)
    }
    fn add(self, rhs: Self) -> Self {
        R(self.0 + rhs.0)
    }
    fn zero() -> Self {
        R(0.0)
    }
}

impl Group for R {
    fn sp_sub(self, rhs: Self) -> Self {
        R(self.0 - rhs.0)
    }
    fn sp_neg(self) -> Self {
        R(-self.0)
    }
    fn sub(self, rhs: Self) -> Self {
        R(self.0 - rhs.0)
    }
    fn neg(self) -> Self {
        R(-self.0)
    }
}

impl Semiring for R {
    fn sp_mul(self, rhs: Self) -> Self {
        R(self.0 * rhs.0)
    }
    fn sp_one() -> Self {
        R(1.0)
    }
    fn mul(self, rhs: Self) -> Self {
        R(self.0 * rhs.0)
    }
    fn one() -> Self {
        R(1.0)
    }
}

impl Ring for R {}

impl Field for R {
    fn sp_div(self, rhs: Self) -> Self {
        R(self.0 / rhs.0)
    }
    fn sp_recip(self) -> Self {
        R(self.0.recip())
    }
    fn div(self, rhs: Self) -> Self {
        R(self.0 / rhs.0)
    }
    fn recip(self) -> Self {
        R(self.0.recip())
    }
}

impl Natural for R {
    fn sp_lt(self, rhs: Self) -> bool {
        self.0 < rhs.0
    }
    fn sp_le(self, rhs: Self) -> bool {
        self.0 <= rhs.0
    }
    fn sp_eq_val(self, rhs: Self) -> bool {
        self.0 == rhs.0
    }
    fn sp_floor(self) -> Self {
        R(self.0.floor())
    }
    fn sp_ceil(self) -> Self {
        R(self.0.ceil())
    }
    fn sp_abs(self) -> Self {
        R(self.0.abs())
    }
    fn sp_powi(self, power: i32) -> Self {
        R(self.0.powi(power))
    }
    fn sp_sin(self) -> Self {
        R(self.0.sin())
    }
    fn sp_cos(self) -> Self {
        R(self.0.cos())
    }
    fn sp_tan(self) -> Self {
        R(self.0.tan())
    }
    fn sp_atan2(self, other: Self) -> Self {
        R(self.0.atan2(other.0))
    }
    fn lt(self, rhs: Self) -> bool {
        self.0 < rhs.0
    }
    fn le(self, rhs: Self) -> bool {
        self.0 <= rhs.0
    }
    fn eq_val(self, rhs: Self) -> bool {
        self.0 == rhs.0
    }
    fn floor(self) -> Self {
        R(self.0.floor())
    }
    fn ceil(self) -> Self {
        R(self.0.ceil())
    }
    fn abs(self) -> Self {
        R(self.0.abs())
    }
    fn powi(self, power: i32) -> Self {
        R(self.0.powi(power))
    }
    fn sin(self) -> Self {
        R(self.0.sin())
    }
    fn cos(self) -> Self {
        R(self.0.cos())
    }
    fn tan(self) -> Self {
        R(self.0.tan())
    }
    fn atan2(self, other: Self) -> Self {
        R(self.0.atan2(other.0))
    }
}

impl Float for R {
    fn sp_nan() -> Self {
        R(f64::NAN)
    }
    fn sp_epsilon() -> Self {
        R(f64::EPSILON)
    }
    fn sp_sqrt(self) -> Self {
        R(self.0.sqrt())
    }
    fn sp_cbrt(self) -> Self {
        R(self.0.cbrt())
    }
    fn sp_sin_cos(self) -> (Self, Self) {
        let (s, c) = self.0.sin_cos();
        (R(s), R(c))
    }
    fn sp_mul_add(self, a: Self, b: Self) -> Self {
        R(self.0.mul_add(a.0, b.0))
    }
    fn sp_copysign(self, sign: Self) -> Self {
        R(self.0.copysign(sign.0))
    }
    fn sp_signum(self) -> Self {
        R(self.0.signum())
    }
    fn sp_min(self, other: Self) -> Self {
        R(self.0.min(other.0))
    }
    fn sp_max(self, other: Self) -> Self {
        R(self.0.max(other.0))
    }
    fn sp_is_nan(self) -> bool {
        self.0.is_nan()
    }
    fn sp_is_finite(self) -> bool {
        self.0.is_finite()
    }
    fn nan() -> Self {
        R(f64::NAN)
    }
    fn epsilon() -> Self {
        R(f64::EPSILON)
    }
    fn sqrt(self) -> Self {
        R(self.0.sqrt())
    }
    fn cbrt(self) -> Self {
        R(self.0.cbrt())
    }
    fn sin_cos(self) -> (Self, Self) {
        let (s, c) = self.0.sin_cos();
        (R(s), R(c))
    }
    fn mul_add(self, a: Self, b: Self) -> Self {
        R(self.0.mul_add(a.0, b.0))
    }
    fn copysign(self, sign: Self) -> Self {
        R(self.0.copysign(sign.0))
    }
    fn signum(self) -> Self {
        R(self.0.signum())
    }
    fn min(self, other: Self) -> Self {
        R(self.0.min(other.0))
    }
    fn max(self, other: Self) -> Self {
        R(self.0.max(other.0))
    }
    fn is_nan(self) -> bool {
        self.0.is_nan()
    }
    fn is_finite(self) -> bool {
        self.0.is_finite()
    }
}

fn rp<const N: usize>(c: [f64; N]) -> Polynomial<R, N> {
    let mut w = [R(0.0); N];
    let mut i: usize = 0;
    while i < N {
        w[i] = R(c[i]);
        i += 1;
    }
    Polynomial::from(w)
}

/// Renders a polynomial the way the library's unverified display layer
/// does: one term per coefficient, highest power first.
fn poly_str<const N: usize>(p: &Polynomial<R, N>) -> String {
    let mut output = String::new();
    for i in 0..N {
        if i != N - 1 {
            output.push_str(&format!("{}×x^{} + ", p.c[i].0, (N - 1) - i));
        } else {
            output.push_str(&format!("{}", p.c[i].0));
        }
    }
    output
}

#[test]
fn test_f64_polynomials() {
    let p_0 = rp([1.0]);
    let p_1 = rp([1.0, 2.0]);
    let p_2 = rp([1.0, 2.0, 3.0]);
    let p_3 = rp([1.0, 2.0, 3.0, 4.0]);

    assert_eq!(p_0.c, [R(1.0)]);
    assert_eq!(p_1.c, [R(1.0), R(2.0)]);
    assert_eq!(p_2.c, [R(1.0), R(2.0), R(3.0)]);
    assert_eq!(p_3.c, [R(1.0), R(2.0), R(3.0), R(4.0)]);

    assert_eq!(poly_str(&p_0), "1");
    assert_eq!(poly_str(&p_1), "1×x^1 + 2");
    assert_eq!(poly_str(&p_2), "1×x^2 + 2×x^1 + 3");
    assert_eq!(poly_str(&p_3), "1×x^3 + 2×x^2 + 3×x^1 + 4");

    assert_eq!(p_0.eval(R(-3.0)), R(1.0));
    assert_eq!(p_0.eval(R(0.0)), R(1.0));
    assert_eq!(p_0.eval(R(1.0)), R(1.0));
    assert_eq!(p_0.eval(R(2.0)), R(1.0));

    assert_eq!(p_1.eval(R(-3.0)), R(-1.0));
    assert_eq!(p_1.eval(R(0.0)), R(2.0));
    assert_eq!(p_1.eval(R(1.0)), R(3.0));
    assert_eq!(p_1.eval(R(2.0)), R(4.0));

    assert_eq!(p_2.eval(R(-3.0)), R(6.0));
    assert_eq!(p_2.eval(R(0.0)), R(3.0));
    assert_eq!(p_2.eval(R(1.0)), R(6.0));
    assert_eq!(p_2.eval(R(2.0)), R(11.0));

    assert_eq!(p_3.eval(R(-3.0)), R(-14.0));
    assert_eq!(p_3.eval(R(0.0)), R(4.0));
    assert_eq!(p_3.eval(R(1.0)), R(10.0));
    assert_eq!(p_3.eval(R(2.0)), R(26.0));
}

#[test]
fn roots_0() {
    let tol = R(1e-7);

    // A nonzero constant polynomial
    let x = rp([1.]);
    let r = x.root_constant(tol);
    assert_eq!(r.len(), 1);

    // Additive identity cast to a polynomial
    let y = rp([0.]);
    let s = y.root_constant(tol);
    assert_eq!(s[0], R(0.));
    assert_eq!(s.len(), 1);
}

#[test]
fn roots_1() {
    let tol = R(1e-7);

    // Linear polynomial p(x) = x + 1
    let x = rp([1., 1.]);
    let r = x.roots(tol);
    assert_eq!(r[0], R(-1.)); // check root
    assert_eq!(r.len(), 1); // check length of returned array
}

#[test]
fn roots_2_default() {
    let tol = R(1e-7);

    // p(x) = 0x^2 + 1x + 1 with root -1
    let x = rp([0., 1., 1.]);
    let r = x.roots(tol);
    assert_eq!(r[0], R(-1.)); // check first root
    assert_eq!(r.len(), 2); // check array length

    // Quadratic p(x) = x^2 - x - 12 with roots 4,-3
    let x = rp([1., -1., -12.]);
    let r = x.roots(tol);
    assert_eq!(r[0], R(4.));
    assert_eq!(r[1], R(-3.));

    // Quadratic p(x) = x^2 - 6x + 9 with root x = 3 with multiplicity 2
    let x = rp([1., -6., 9.]);
    let r = x.roots(tol);
    assert_eq!(r[0], R(3.));
    assert_eq!(r[1], R(3.));

    // Quadratic p(x) = x^2 - 3x + 5 with complex roots
    let x = rp([1., -3., 5.]);
    let r = x.roots(tol);
    assert_eq!(r[0].is_nan(), true);
    assert_eq!(r[1].is_nan(), true);
}

#[test]
fn roots_2_yuksel() {
    // p(x) = 0x^2 + 1x + 1 with root -1
    let x = rp([0., 1., 1.]);
    let r = solvers::yuksel::roots_quadratic(&x);
    assert_eq!(r[1], R(-1.));
    assert_eq!(r[0].is_finite(), false);
    assert_eq!(r.len(), 2);

    // Quadratic p(x) = x^2 - x - 12 with roots 4,-3
    let x = rp([1., -1., -12.]);
    let r = solvers::yuksel::roots_quadratic(&x);
    assert_eq!(r[1], R(4.));
    assert_eq!(r[0], R(-3.));

    // Quadratic p(x) = x^2 - 6x + 9 with root x = 3 with multiplicity 2
    let x = rp([1., -6., 9.]);
    let r = solvers::yuksel::roots_quadratic(&x);
    assert_eq!(r[0], R(3.));
    assert_eq!(r[1].is_nan(), true);

    // Quadratic p(x) = x^2 - 3x + 5 with complex roots
    let x = rp([1., -3., 5.]);
    let r = solvers::yuksel::roots_quadratic(&x);
    assert_eq!(r[0].is_nan(), true);
    assert_eq!(r[1].is_nan(), true);
}

#[test]
fn roots_3_generic() {
    let tol = R(f64::EPSILON);

    // Cubic p(x) = 1x^3 + 5x^2 + -14x + 0 with roots -7, 0, 2
    let x = rp([1., 5., -14., 0.]);
    let r = x.roots(tol);
    assert_eq!(r[0], R(-7.0)); // check first root
    assert_eq!(r[1], R(0.)); // check second root
    assert_eq!(r[2], R(2.0)); // check third root
    assert_eq!(r.len(), 3); // check array length
}

#[test]
fn roots_3_blinn() {
    let tol = f64::EPSILON;

    // Cubic p(x) = 1x^3 + 5x^2 + -14x + 0 with roots -7, 0, 2
    let x = rp([1., 5., -14., 0.]);
    let r = solvers::blinn::Blinn::roots_cubic(&x);
    assert_eq!((r[0].0 - 2.0).abs() < 5.0 * tol, true); // check first root
    assert_eq!((r[1].0 - 0.0).abs() < 5.0 * tol, true); // check second root
    assert_eq!((r[2].0 + 7.0).abs() < 5.0 * tol, true); // check third root
    assert_eq!(r.len(), 3); // check array length
}

#[test]
fn roots_3_yuksel() {
    let tol = R(f64::EPSILON);

    // Cubic p(x) = 1x^3 + 5x^2 + -14x + 0 with roots -7, 0, 2
    let x = rp([1., 5., -14., 0.]);
    let r = solvers::yuksel::roots_cubic(&x, tol);
    assert_eq!(r[0], R(-7.0)); // check first root
    assert_eq!(r[1], R(0.)); // check second root
    assert_eq!(r[2], R(2.0)); // check third root
}

#[test]
fn roots_4_yuksel_fixture() {
    let tol = R(1e-12);

    // Quartic (x^2 - 1)(x^2 - 4) = x^4 - 5x^2 + 4 with roots -2, -1, 1, 2
    let x = rp([1., 0., -5., 0., 4.]);
    let r = solvers::yuksel::roots_quartic(&x, tol);
    let expected = [-2.0, -1.0, 1.0, 2.0];
    for i in 0..4 {
        assert!((r[i].0 - expected[i]).abs() < 1e-6);
    }

    // Quartic x^4 + 1 has no real roots: every slot is the sentinel
    let y = rp([1., 0., 0., 0., 1.]);
    let s = solvers::yuksel::roots_quartic(&y, tol);
    for i in 0..4 {
        assert!(s[i].is_nan());
    }
}

#[test]
fn degenerate_leading_coefficient_reduces_degree() {
    let tol = R(1e-10);

    // A cubic whose leading coefficient vanishes is solved as the
    // quadratic x^2 - x - 12, ascending, with the third slot empty.
    let c = rp([0., 1., -1., -12.]);
    let r = solvers::yuksel::roots_cubic(&c, tol);
    assert_eq!(r[0], R(-3.));
    assert_eq!(r[1], R(4.));
    assert!(r[2].is_nan());

    // Same for the closed-form family.
    let rb = solvers::blinn::Blinn::roots_cubic(&c);
    let mut got: Vec<f64> = rb.iter().filter(|x| !x.is_nan()).map(|x| x.0).collect();
    got.sort_by(|a, b| a.partial_cmp(b).unwrap());
    assert_eq!(got, vec![-3.0, 4.0]);
    assert!(rb[2].is_nan());

    // A quartic whose leading coefficient vanishes is solved as the cubic
    // x^3 + 5x^2 - 14x with roots -7, 0, 2, the fourth slot empty.
    let f = rp([0., 1., 5., -14., 0.]);
    let rq = solvers::yuksel::roots_quartic(&f, tol);
    assert_eq!(rq[0], R(-7.));
    assert_eq!(rq[1], R(0.));
    assert_eq!(rq[2], R(2.));
    assert!(rq[3].is_nan());
}

#[test]
fn residual_small_at_roots() {
    // Every real root any solver returns evaluates to nearly zero.
    let tol = R(1e-12);

    let q = rp([1., -1., -12.]);
    let r = q.roots(tol);
    for i in 0..2 {
        if r[i].is_finite() {
            assert!(q.eval(r[i]).0.abs() < 1e-9);
        }
    }
    let ry = solvers::yuksel::roots_quadratic(&q);
    for i in 0..2 {
        if ry[i].is_finite() {
            assert!(q.eval(ry[i]).0.abs() < 1e-9);
        }
    }

    let c = rp([1., 5., -14., 0.]);
    let rc = solvers::yuksel::roots_cubic(&c, tol);
    let rb = solvers::blinn::Blinn::roots_cubic(&c);
    for i in 0..3 {
        if rc[i].is_finite() {
            assert!(c.eval(rc[i]).0.abs() < 1e-8);
        }
        if rb[i].is_finite() {
            assert!(c.eval(rb[i]).0.abs() < 1e-8);
        }
    }

    let f = rp([2., -3., -12., 5., 6.]);
    let rf = solvers::yuksel::roots_quartic(&f, tol);
    for i in 0..4 {
        if rf[i].is_finite() {
            assert!(f.eval(rf[i]).0.abs() < 1e-7);
        }
    }
}

#[test]
fn zero_tolerance_refinement() {
    // A zero tolerance drives refinement to the probe-at-epsilon and
    // endpoint-comparison paths; roots must still come out ascending and
    // essentially exact.
    let tol = R(0.0);

    let c = rp([1., 5., -14., 0.]);
    let r = solvers::yuksel::roots_cubic(&c, tol);
    let expected = [-7.0, 0.0, 2.0];
    for i in 0..3 {
        assert!((r[i].0 - expected[i]).abs() < 1e-9);
        if i > 0 {
            assert!(r[i - 1].0 < r[i].0);
        }
    }

    let f = rp([1., 0., -5., 0., 4.]);
    let rq = solvers::yuksel::roots_quartic(&f, tol);
    let expected = [-2.0, -1.0, 1.0, 2.0];
    for i in 0..4 {
        assert!((rq[i].0 - expected[i]).abs() < 1e-9);
        if i > 0 {
            assert!(rq[i - 1].0 < rq[i].0);
        }
    }
}

#[test]
fn vieta_quadratic() {
    // For a positive discriminant, root sum is -b/a and root product c/a.
    let cases = [[1., -1., -12.], [2., 3., -5.], [1., -6., 5.], [3., -2., -8.]];
    for c in cases.iter() {
        let p = rp(*c);
        let r = p.roots(R(1e-12));
        let sum = r[0].0 + r[1].0;
        let prod = r[0].0 * r[1].0;
        assert!((sum - (-c[1] / c[0])).abs() < 1e-9);
        assert!((prod - c[2] / c[0]).abs() < 1e-9);
        let ry = solvers::yuksel::roots_quadratic(&p);
        let sum = ry[0].0 + ry[1].0;
        let prod = ry[0].0 * ry[1].0;
        assert!((sum - (-c[1] / c[0])).abs() < 1e-9);
        assert!((prod - c[2] / c[0]).abs() < 1e-9);
    }
}

#[test]
fn root_count_matches_algebra() {
    let tol = R(1e-12);

    // Two distinct quadratic roots
    let r = rp([1., -1., -12.]).roots(tol);
    assert_eq!(r.iter().filter(|x| !x.is_nan()).count(), 2);
    // No real quadratic roots
    let r = rp([1., -3., 5.]).roots(tol);
    assert_eq!(r.iter().filter(|x| !x.is_nan()).count(), 0);
    // Three distinct cubic roots
    let r = rp([1., 0., -7., 6.]).roots(tol);
    assert_eq!(r.iter().filter(|x| !x.is_nan()).count(), 3);
    // One real cubic root
    let r = rp([1., 0., 0., -1.]).roots(tol);
    assert_eq!(r.iter().filter(|x| !x.is_nan()).count(), 1);
    // Four distinct quartic roots
    let r = solvers::yuksel::roots_quartic(&rp([1., 0., -5., 0., 4.]), tol);
    assert_eq!(r.iter().filter(|x| !x.is_nan()).count(), 4);
    // No real quartic roots
    let r = solvers::yuksel::roots_quartic(&rp([1., 0., 0., 0., 1.]), tol);
    assert_eq!(r.iter().filter(|x| !x.is_nan()).count(), 0);
}

#[test]
fn deterministic_outputs() {
    // Identical inputs give byte-identical outputs from every solver.
    let tol = R(1e-10);
    let q = rp([1., -1., -12.]);
    let a = q.roots(tol);
    let b = q.roots(tol);
    for i in 0..2 {
        assert_eq!(a[i].0.to_bits(), b[i].0.to_bits());
    }
    let c = rp([1., 5., -14., 0.]);
    let a = solvers::yuksel::roots_cubic(&c, tol);
    let b = solvers::yuksel::roots_cubic(&c, tol);
    for i in 0..3 {
        assert_eq!(a[i].0.to_bits(), b[i].0.to_bits());
    }
    let a = solvers::blinn::Blinn::roots_cubic(&c);
    let b = solvers::blinn::Blinn::roots_cubic(&c);
    for i in 0..3 {
        assert_eq!(a[i].0.to_bits(), b[i].0.to_bits());
    }
    let f = rp([2., -3., -12., 5., 6.]);
    let a = solvers::yuksel::roots_quartic(&f, tol);
    let b = solvers::yuksel::roots_quartic(&f, tol);
    for i in 0..4 {
        assert_eq!(a[i].0.to_bits(), b[i].0.to_bits());
    }
}

#[test]
fn sampling_finds_no_missed_roots() {
    // Dense sign-change sampling never finds a root the iterative solver
    // missed, over pseudo-random integer coefficient sets of degree 3 and 4.
    let tol = R(1e-10);
    let mut state: u64 = 0x2545F4914F6CDD1D;
    let mut next_coeff = move || {
        state = state.wrapping_mul(6364136223846793005).wrapping_add(1442695040888963407);
        (((state >> 33) % 11) as i64 - 5) as f64
    };

    for _ in 0..40 {
        let mut c = [0.0f64; 5];
        for j in 0..5 {
            c[j] = next_coeff();
        }
        if c[0] == 0.0 {
            c[0] = 1.0;
        }
        let p = rp(c);
        let roots = solvers::yuksel::roots_quartic(&p, tol);
        let eval = |x: f64| p.eval(R(x)).0;
        check_sign_changes_covered(&eval, &roots.iter().map(|r| r.0).collect::<Vec<f64>>());

        let mut c3 = [0.0f64; 4];
        for j in 0..4 {
            c3[j] = next_coeff();
        }
        if c3[0] == 0.0 {
            c3[0] = 1.0;
        }
        let p3 = rp(c3);
        let roots3 = solvers::yuksel::roots_cubic(&p3, tol);
        let eval3 = |x: f64| p3.eval(R(x)).0;
        check_sign_changes_covered(&eval3, &roots3.iter().map(|r| r.0).collect::<Vec<f64>>());
    }
}

fn check_sign_changes_covered(eval: &dyn Fn(f64) -> f64, roots: &[f64]) {
    let lo = -30.0;
    let hi = 30.0;
    let steps = 3000;
    let dx = (hi - lo) / steps as f64;
    let mut x = lo;
    let mut y = eval(x);
    for _ in 0..steps {
        let xn = x + dx;
        let yn = eval(xn);
        if (y < 0.0) != (yn < 0.0) {
            // A sign change in [x, xn]: some reported root must be inside
            // (with a little slack for the refinement tolerance).
            let covered = roots.iter().any(|r| r.is_finite() && *r >= x - 1e-6 && *r <= xn + 1e-6);
            assert!(covered, "missed a sign change in [{}, {}]", x, xn);
        }
        x = xn;
        y = yn;
    }
}
