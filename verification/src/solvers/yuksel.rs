//! Iterative root isolation and refinement for degrees two to four.
//!
//! A polynomial is strictly monotonic between consecutive roots of its
//! derivative, so each such interval holds at most one root. The quartic
//! solver obtains the derivative's roots from the cubic solver, the cubic
//! from a small closed quadratic formula local to this family, and walks
//! the intervals in ascending order: a root lives in a bounded interval
//! exactly when the polynomial changes sign across it, and in an unbounded
//! end interval exactly when the sign there differs from the asymptotic
//! sign of the leading coefficient. Bounded intervals are refined by plain
//! Newton steps first (for low degree) and then a safeguarded
//! Newton–bisection hybrid; unbounded ones walk outward with exponentially
//! growing probes until Newton converges or a sign flip hands a bracket to
//! the closed refinement.
//!
//! Refinement steps are limited by a large step budget so that the
//! recursion is well founded for every scalar implementation; on machine
//! scalars every bisection lands strictly inside the bracket and the
//! budget is far beyond what the stopping criteria allow, so it is never
//! the reason a refinement stops. A run that did exhaust the budget would
//! return the bracket point reached so far.
//!
//! Every function's contract pins its result to the model of the exact
//! step sequence performed, so equal inputs give equal outputs.

use vstd::prelude::*;

use crate::float::Float;
use crate::natural::Natural;
use crate::algebra::{Field, Group, Monoid, Semiring};
use crate::polynomial::Polynomial;
use crate::solvers::blinn::sp_cubic_degenerate;

verus! {

/// Bound on refinement steps; far beyond what any machine scalar needs
/// before a stopping criterion fires.
pub const STEP_BUDGET: u32 = 1000000;

/// The model of `1 + 1`.
pub open spec fn sp_two<T: Float>() -> T {
    T::sp_one().sp_add(T::sp_one())
}

/// Clamp `x` into `[lo, hi]` by the scalar's order; incomparable values
/// pass through unchanged.
pub open spec fn sp_clamp<T: Float>(x: T, lo: T, hi: T) -> T {
    if x.sp_lt(lo) {
        lo
    } else if hi.sp_lt(x) {
        hi
    } else {
        x
    }
}

/// One bracketed-clamped Newton pass of at most `k` steps from `xr`:
/// the flag says whether the step size fell within tolerance, and the
/// value is the converged point or the last iterate.
pub open spec fn sp_newton_steps<T: Float, const FN: usize, const DN: usize>(
    f: Polynomial<T, FN>,
    df: Polynomial<T, DN>,
    xr: T,
    x0: T,
    x1: T,
    tol: T,
    k: nat,
) -> (bool, T)
    decreases k,
{
    if k == 0 {
        (false, xr)
    } else {
        let xn = sp_clamp(xr.sp_sub(f.sp_eval(xr).sp_div(df.sp_eval(xr))), x0, x1);
        if xr.sp_sub(xn).sp_abs().sp_le(tol) {
            (true, xn)
        } else {
            sp_newton_steps(f, df, xn, x0, x1, tol, (k - 1) as nat)
        }
    }
}

/// One state of the safeguarded Newton–bisection refinement, stepped to
/// completion: `xr`/`yr` is the current iterate, `xb0`/`xb1` the bracket,
/// `y0` the sign anchor of the bracket's low end.
pub open spec fn sp_closed_loop<T: Float, const FN: usize, const DN: usize>(
    f: Polynomial<T, FN>,
    df: Polynomial<T, DN>,
    y0: T,
    tol: T,
    ep2: T,
    xr: T,
    yr: T,
    xb0: T,
    xb1: T,
    fuel: u32,
) -> T
    decreases fuel,
{
    if fuel == 0 {
        xr
    } else {
        let zero = T::sp_zero();
        let side = y0.sp_lt(zero) != yr.sp_lt(zero);
        let nb0 = if side {
            xb0
        } else {
            xr
        };
        let nb1 = if side {
            xr
        } else {
            xb1
        };
        let dy = df.sp_eval(xr);
        let xn = xr.sp_sub(yr.sp_div(dy));
        if nb0.sp_lt(xn) && xn.sp_lt(nb1) {
            let stepsize = xr.sp_sub(xn).sp_abs();
            if tol.sp_lt(stepsize) {
                sp_closed_loop(f, df, y0, tol, ep2, xn, f.sp_eval(xn), nb0, nb1, (fuel - 1) as u32)
            } else {
                let xs0 = if tol.sp_eq_val(zero) {
                    if side {
                        nb1.sp_sub(T::sp_epsilon())
                    } else {
                        nb0.sp_add(T::sp_epsilon())
                    }
                } else {
                    xn.sp_sub(tol.sp_mul(if side {
                        T::sp_one()
                    } else {
                        T::sp_one().sp_neg()
                    }))
                };
                let xs = if !tol.sp_eq_val(zero) && xs0.sp_eq_val(xn) {
                    if side {
                        nb1.sp_sub(T::sp_epsilon())
                    } else {
                        nb0.sp_add(T::sp_epsilon())
                    }
                } else {
                    xs0
                };
                let ys = f.sp_eval(xs);
                let s = y0.sp_lt(zero) != ys.sp_lt(zero);
                if side != s {
                    xn
                } else {
                    sp_closed_loop(f, df, y0, tol, ep2, xs, ys, nb0, nb1, (fuel - 1) as u32)
                }
            }
        } else {
            let xm = nb0.sp_add(nb1).sp_div(sp_two::<T>());
            if xm.sp_eq_val(nb0) || xm.sp_eq_val(nb1) || nb1.sp_sub(nb0).sp_le(ep2) {
                if tol.sp_eq_val(zero) {
                    let xe = if side {
                        nb0
                    } else {
                        nb1
                    };
                    let ye = f.sp_eval(xe);
                    if ye.sp_abs().sp_lt(yr.sp_abs()) {
                        xe
                    } else {
                        xm
                    }
                } else {
                    xm
                }
            } else {
                sp_closed_loop(f, df, y0, tol, ep2, xm, f.sp_eval(xm), nb0, nb1, (fuel - 1) as u32)
            }
        }
    }
}

/// What closed-interval refinement returns on the bracket `[x0, x1]` whose
/// low-end value is `y0`: the midpoint if the bracket is already narrow,
/// else a short plain Newton pass for low degree, else the safeguarded
/// loop's result.
pub open spec fn sp_find_closed<T: Float, const FN: usize, const DN: usize>(
    n: usize,
    f: Polynomial<T, FN>,
    df: Polynomial<T, DN>,
    x0: T,
    x1: T,
    y0: T,
    tol: T,
) -> T {
    let ep2 = sp_two::<T>().sp_mul(tol);
    let xm = x0.sp_add(x1).sp_div(sp_two::<T>());
    if x1.sp_sub(x0).sp_le(ep2) {
        xm
    } else {
        let (done, xf) = if n <= 3 {
            sp_newton_steps(f, df, xm, x0, x1, tol, 16)
        } else {
            (false, xm)
        };
        if done {
            xf
        } else {
            let xr = if n <= 3 && !xf.sp_is_finite() {
                xm
            } else {
                xf
            };
            sp_closed_loop(f, df, y0, tol, ep2, xr, f.sp_eval(xr), x0, x1, STEP_BUDGET)
        }
    }
}

/// One state of the outward-walking open-interval search, stepped to
/// completion. `xm`/`ym` is the last anchor, `xr`/`yr` the probe, `delta`
/// the growing fallback offset; `open_min` walks left, else right.
pub open spec fn sp_open_main<T: Float, const FN: usize, const DN: usize>(
    n: usize,
    f: Polynomial<T, FN>,
    df: Polynomial<T, DN>,
    tol: T,
    open_min: bool,
    xm: T,
    ym: T,
    xr: T,
    yr: T,
    delta: T,
    otherside: bool,
    fuel: u32,
) -> T
    decreases fuel, 1int,
{
    let zero = T::sp_zero();
    if fuel == 0 {
        xr
    } else if yr.sp_eq_val(zero) {
        xr
    } else if otherside {
        if open_min {
            sp_find_closed(n, f, df, xr, xm, yr, tol)
        } else {
            sp_find_closed(n, f, df, xm, xr, ym, tol)
        }
    } else {
        sp_open_probe(n, f, df, tol, open_min, xr, yr, delta, (fuel - 1) as u32)
    }
}

/// One probe of the open search: try a Newton step outward; accept it,
/// re-anchor on stagnation, or fall back to the growing offset.
pub open spec fn sp_open_probe<T: Float, const FN: usize, const DN: usize>(
    n: usize,
    f: Polynomial<T, FN>,
    df: Polynomial<T, DN>,
    tol: T,
    open_min: bool,
    xr: T,
    yr: T,
    delta: T,
    fuel: u32,
) -> T
    decreases fuel, 0int,
{
    let zero = T::sp_zero();
    if fuel == 0 {
        xr
    } else {
        let dy = df.sp_eval(xr);
        let xn = xr.sp_sub(yr.sp_div(dy));
        let dif = if open_min {
            xr.sp_sub(xn)
        } else {
            xn.sp_sub(xr)
        };
        if dif.sp_le(zero) && xn.sp_is_finite() {
            if dif.sp_le(tol) {
                if xn.sp_eq_val(xr) {
                    xn
                } else {
                    let xs = xn.sp_sub(tol.sp_mul(if open_min {
                        T::sp_one().sp_neg()
                    } else {
                        T::sp_one()
                    }));
                    let ys = f.sp_eval(xs);
                    if yr.sp_lt(zero) != ys.sp_lt(zero) {
                        xn
                    } else {
                        sp_open_probe(n, f, df, tol, open_min, xs, ys, delta, (fuel - 1) as u32)
                    }
                }
            } else {
                let yn = f.sp_eval(xn);
                let other = yr.sp_lt(zero) != yn.sp_lt(zero);
                sp_open_main(n, f, df, tol, open_min, xr, yr, xn, yn, delta, other, (fuel
                    - 1) as u32)
            }
        } else {
            let xo = if open_min {
                xr.sp_sub(delta)
            } else {
                xr.sp_add(delta)
            };
            let nd = delta.sp_add(sp_two::<T>());
            let yo = f.sp_eval(xo);
            let other = yr.sp_lt(zero) != yo.sp_lt(zero);
            sp_open_main(n, f, df, tol, open_min, xr, yr, xo, yo, nd, other, (fuel - 1) as u32)
        }
    }
}

/// What the open search returns from anchor `xm`/`ym` and first probe `xr`.
pub open spec fn sp_find_open<T: Float, const FN: usize, const DN: usize>(
    n: usize,
    f: Polynomial<T, FN>,
    df: Polynomial<T, DN>,
    xm: T,
    ym: T,
    xr: T,
    tol: T,
    open_min: bool,
) -> T {
    let yr = f.sp_eval(xr);
    let otherside = ym.sp_lt(T::sp_zero()) != yr.sp_lt(T::sp_zero());
    sp_open_main(n, f, df, tol, open_min, xm, ym, xr, yr, T::sp_one(), otherside, STEP_BUDGET)
}

/// What the open search toward larger abscissas returns.
pub open spec fn sp_find_open_max<T: Float, const FN: usize, const DN: usize>(
    n: usize,
    f: Polynomial<T, FN>,
    df: Polynomial<T, DN>,
    x0: T,
    y0: T,
    tol: T,
) -> T {
    sp_find_open(n, f, df, x0, y0, x0.sp_add(T::sp_one()), tol, false)
}

/// What the open search toward smaller abscissas returns.
pub open spec fn sp_find_open_min<T: Float, const FN: usize, const DN: usize>(
    n: usize,
    f: Polynomial<T, FN>,
    df: Polynomial<T, DN>,
    x1: T,
    y1: T,
    tol: T,
) -> T {
    sp_find_open(n, f, df, x1, y1, x1.sp_sub(T::sp_one()), tol, true)
}

fn newton_steps<T: Float, const FN: usize, const DN: usize>(
    f: &Polynomial<T, FN>,
    df: &Polynomial<T, DN>,
    xr: T,
    x0: T,
    x1: T,
    tol: T,
    k: u32,
) -> (r: (bool, T))
    requires
        1 <= FN <= 5,
        1 <= DN <= 5,
    ensures
        r == sp_newton_steps(*f, *df, xr, x0, x1, tol, k as nat),
    decreases k,
{
    if k == 0 {
        (false, xr)
    } else {
        let xn0 = xr.sub(f.eval(xr).div(df.eval(xr)));
        let xn = if xn0.lt(x0) {
            x0
        } else if x1.lt(xn0) {
            x1
        } else {
            xn0
        };
        if xr.sub(xn).abs().le(tol) {
            (true, xn)
        } else {
            newton_steps(f, df, xn, x0, x1, tol, k - 1)
        }
    }
}

fn closed_loop<T: Float, const FN: usize, const DN: usize>(
    f: &Polynomial<T, FN>,
    df: &Polynomial<T, DN>,
    y0: T,
    tol: T,
    ep2: T,
    xr: T,
    yr: T,
    xb0: T,
    xb1: T,
    fuel: u32,
) -> (r: T)
    requires
        1 <= FN <= 5,
        1 <= DN <= 5,
    ensures
        r == sp_closed_loop(*f, *df, y0, tol, ep2, xr, yr, xb0, xb1, fuel),
    decreases fuel,
{
    if fuel == 0 {
        return xr;
    }
    let zero = T::zero();
    let side = y0.lt(zero) != yr.lt(zero);
    let nb0 = if side {
        xb0
    } else {
        xr
    };
    let nb1 = if side {
        xr
    } else {
        xb1
    };
    let dy = df.eval(xr);
    let xn = xr.sub(yr.div(dy));
    if xn.gt(nb0) && xn.lt(nb1) {
        let stepsize = xr.sub(xn).abs();
        if stepsize.gt(tol) {
            let yn = f.eval(xn);
            closed_loop(f, df, y0, tol, ep2, xn, yn, nb0, nb1, fuel - 1)
        } else {
            let mut xs: T;
            if tol.eq_val(zero) {
                xs = if side {
                    nb1.sub(T::epsilon())
                } else {
                    nb0.add(T::epsilon())
                };
            } else {
                xs = xn.sub(tol.mul(if side {
                    T::one()
                } else {
                    T::one().neg()
                }));
                if xs.eq_val(xn) {
                    xs = if side {
                        nb1.sub(T::epsilon())
                    } else {
                        nb0.add(T::epsilon())
                    };
                }
            }
            let ys = f.eval(xs);
            let s = y0.lt(zero) != ys.lt(zero);
            if side != s {
                xn
            } else {
                closed_loop(f, df, y0, tol, ep2, xs, ys, nb0, nb1, fuel - 1)
            }
        }
    } else {
        let xm = nb0.add(nb1).div(T::one().add(T::one()));
        if xm.eq_val(nb0) || xm.eq_val(nb1) || nb1.sub(nb0).le(ep2) {
            if tol.eq_val(zero) {
                let xe = if side {
                    nb0
                } else {
                    nb1
                };
                let ye = f.eval(xe);
                if ye.abs().lt(yr.abs()) {
                    xe
                } else {
                    xm
                }
            } else {
                xm
            }
        } else {
            let ym = f.eval(xm);
            closed_loop(f, df, y0, tol, ep2, xm, ym, nb0, nb1, fuel - 1)
        }
    }
}

/// Refine the bracket `[x0, x1]` (low-end value `y0`) to a root.
fn find_closed<T: Float, const FN: usize, const DN: usize>(
    n: usize,
    f: &Polynomial<T, FN>,
    df: &Polynomial<T, DN>,
    x0: T,
    x1: T,
    y0: T,
    _y1: T,
    tol: T,
) -> (r: T)
    requires
        1 <= FN <= 5,
        1 <= DN <= 5,
    ensures
        r == sp_find_closed(n, *f, *df, x0, x1, y0, tol),
    {
    let two = T::one().add(T::one());
    let ep2 = two.mul(tol);
    let xm = x0.add(x1).div(two);
    if x1.sub(x0).le(ep2) {
        return xm;
    }
    let mut xr = xm;
    if n <= 3 {
        let (done, xf) = newton_steps(f, df, xm, x0, x1, tol, 16);
        if done {
            return xf;
        }
        xr = if !xf.is_finite() {
            xm
        } else {
            xf
        };
    }
    let yr = f.eval(xr);
    closed_loop(f, df, y0, tol, ep2, xr, yr, x0, x1, STEP_BUDGET)
}

fn open_main<T: Float, const FN: usize, const DN: usize>(
    n: usize,
    f: &Polynomial<T, FN>,
    df: &Polynomial<T, DN>,
    tol: T,
    open_min: bool,
    xm: T,
    ym: T,
    xr: T,
    yr: T,
    delta: T,
    otherside: bool,
    fuel: u32,
) -> (r: T)
    requires
        1 <= FN <= 5,
        1 <= DN <= 5,
    ensures
        r == sp_open_main(n, *f, *df, tol, open_min, xm, ym, xr, yr, delta, otherside, fuel),
    decreases fuel, 1int,
{
    let zero = T::zero();
    if fuel == 0 {
        xr
    } else if yr.eq_val(zero) {
        xr
    } else if otherside {
        if open_min {
            find_closed(n, f, df, xr, xm, yr, ym, tol)
        } else {
            find_closed(n, f, df, xm, xr, ym, yr, tol)
        }
    } else {
        open_probe(n, f, df, tol, open_min, xr, yr, delta, fuel - 1)
    }
}

fn open_probe<T: Float, const FN: usize, const DN: usize>(
    n: usize,
    f: &Polynomial<T, FN>,
    df: &Polynomial<T, DN>,
    tol: T,
    open_min: bool,
    xr: T,
    yr: T,
    delta: T,
    fuel: u32,
) -> (r: T)
    requires
        1 <= FN <= 5,
        1 <= DN <= 5,
    ensures
        r == sp_open_probe(n, *f, *df, tol, open_min, xr, yr, delta, fuel),
    decreases fuel, 0int,
{
    let zero = T::zero();
    if fuel == 0 {
        return xr;
    }
    let dy = df.eval(xr);
    let xn = xr.sub(yr.div(dy));
    let dif = if open_min {
        xr.sub(xn)
    } else {
        xn.sub(xr)
    };
    if dif.le(zero) && xn.is_finite() {
        if dif.le(tol) {
            if xn.eq_val(xr) {
                return xn;
            }
            let xs = xn.sub(tol.mul(if open_min {
                T::one().neg()
            } else {
                T::one()
            }));
            let ys = f.eval(xs);
            let s = yr.lt(zero) != ys.lt(zero);
            if s {
                xn
            } else {
                open_probe(n, f, df, tol, open_min, xs, ys, delta, fuel - 1)
            }
        } else {
            let yn = f.eval(xn);
            let other = yr.lt(zero) != yn.lt(zero);
            open_main(n, f, df, tol, open_min, xr, yr, xn, yn, delta, other, fuel - 1)
        }
    } else {
        let xo = if open_min {
            xr.sub(delta)
        } else {
            xr.add(delta)
        };
        let nd = delta.add(T::one().add(T::one()));
        let yo = f.eval(xo);
        let other = yr.lt(zero) != yo.lt(zero);
        open_main(n, f, df, tol, open_min, xr, yr, xo, yo, nd, other, fuel - 1)
    }
}

/// Search the unbounded interval above `x0` (whose value is `y0`).
fn find_open_max<T: Float, const FN: usize, const DN: usize>(
    n: usize,
    f: &Polynomial<T, FN>,
    df: &Polynomial<T, DN>,
    x0: T,
    y0: T,
    tol: T,
) -> (r: T)
    requires
        1 <= FN <= 5,
        1 <= DN <= 5,
    ensures
        r == sp_find_open_max(n, *f, *df, x0, y0, tol),
{
    let xr = x0.add(T::one());
    let yr = f.eval(xr);
    let otherside = y0.lt(T::zero()) != yr.lt(T::zero());
    open_main(n, f, df, tol, false, x0, y0, xr, yr, T::one(), otherside, STEP_BUDGET)
}

/// Search the unbounded interval below `x1` (whose value is `y1`).
fn find_open_min<T: Float, const FN: usize, const DN: usize>(
    n: usize,
    f: &Polynomial<T, FN>,
    df: &Polynomial<T, DN>,
    x1: T,
    y1: T,
    tol: T,
) -> (r: T)
    requires
        1 <= FN <= 5,
        1 <= DN <= 5,
    ensures
        r == sp_find_open_min(n, *f, *df, x1, y1, tol),
{
    let xr = x1.sub(T::one());
    let yr = f.eval(xr);
    let otherside = y1.lt(T::zero()) != yr.lt(T::zero());
    open_main(n, f, df, tol, true, x1, y1, xr, yr, T::one(), otherside, STEP_BUDGET)
}

/// The iterative quadratic solver's discriminant `b² - 4·a·c`.
pub open spec fn sp_yuksel_quad_disc<T: Float>(a: T, b: T, c: T) -> T {
    let two = sp_two::<T>();
    let four = two.sp_add(two);
    b.sp_mul(b).sp_sub(four.sp_mul(a).sp_mul(c))
}

/// What the iterative quadratic solver returns for coefficients
/// `(a, b, c)`: for a positive discriminant the two roots in ascending
/// order, for a negative one two sentinels, and on the boundary the single
/// vertex root followed by a sentinel.
pub open spec fn sp_yuksel_quadratic<T: Float>(a: T, b: T, c: T) -> (T, T) {
    let zero = T::sp_zero();
    let two = sp_two::<T>();
    let half_neg = T::sp_one().sp_div(two).sp_neg();
    let delta = sp_yuksel_quad_disc(a, b, c);
    if zero.sp_lt(delta) {
        let d = delta.sp_sqrt();
        let q = half_neg.sp_mul(b.sp_add(d.sp_copysign(b.sp_signum())));
        let rv0 = q.sp_div(a);
        let rv1 = c.sp_div(q);
        (rv0.sp_min(rv1), rv0.sp_max(rv1))
    } else if delta.sp_lt(zero) {
        (T::sp_nan(), T::sp_nan())
    } else {
        (half_neg.sp_mul(b).sp_div(a), T::sp_nan())
    }
}

/// The derivative the cubic solver isolates on, scaled as the solver
/// builds it: `3·c0·x² + 2·c1·x + c2`.
pub open spec fn sp_cubic_deriv<T: Float>(f: Polynomial<T, 4>) -> Polynomial<T, 3> {
    let two = sp_two::<T>();
    let three = two.sp_add(T::sp_one());
    Polynomial { c: [f.c@[0].sp_mul(three), two.sp_mul(f.c@[1]), f.c@[2]] }
}

/// What the iterative cubic solver returns: roots in ascending order,
/// sentinel-padded. A degenerate leading coefficient (detected exactly as
/// in the closed-form family, through non-finite depressed parameters)
/// reduces the degree: the quadratic solver handles the remaining
/// coefficients and the third slot stays empty. Otherwise the
/// derivative's vertex splits the line and each monotonic piece is
/// searched only when its signs admit a root.
pub open spec fn sp_yuksel_cubic<T: Float>(f: Polynomial<T, 4>, tol: T) -> (T, T, T) {
    if sp_cubic_degenerate(f.c@[0], f.c@[1], f.c@[2], f.c@[3]) {
        let (q0, q1) = sp_yuksel_quadratic(f.c@[1], f.c@[2], f.c@[3]);
        (q0, q1, T::sp_nan())
    } else {
        sp_yuksel_cubic_resolve(f, tol)
    }
}

/// The iterative cubic on a sound (non-degenerate) leading coefficient.
pub open spec fn sp_yuksel_cubic_resolve<T: Float>(f: Polynomial<T, 4>, tol: T) -> (T, T, T) {
    let zero = T::sp_zero();
    let one = T::sp_one();
    let two = sp_two::<T>();
    let three = two.sp_add(one);
    let a = f.c@[0].sp_mul(three);
    let b_2 = f.c@[1];
    let cc = f.c@[2];
    let df = sp_cubic_deriv(f);
    let delta_4 = b_2.sp_mul(b_2).sp_sub(a.sp_mul(cc));
    if zero.sp_lt(delta_4) {
        let d_2 = delta_4.sp_sqrt();
        let q = b_2.sp_add(d_2.sp_mul(if b_2.sp_signum().sp_lt(zero) {
            one.sp_neg()
        } else {
            one
        })).sp_neg();
        let rv0 = q.sp_div(a);
        let rv1 = cc.sp_div(q);
        let xa = rv0.sp_min(rv1);
        let xb = rv0.sp_max(rv1);
        let ya = f.sp_eval(xa);
        let yb = f.sp_eval(xb);
        if a.sp_signum().sp_eq_val(ya.sp_signum()) {
            let r0 = sp_find_open_min(3, f, df, xa, ya, tol);
            if ya.sp_lt(zero) != yb.sp_lt(zero) {
                let r1 = sp_find_closed(3, f, df, xa, xb, zero, tol);
                let r2 = sp_find_open_max(3, f, df, xb, yb, tol);
                (r0, r1, r2)
            } else {
                (r0, T::sp_nan(), T::sp_nan())
            }
        } else {
            (sp_find_open_max(3, f, df, xb, yb, tol), T::sp_nan(), T::sp_nan())
        }
    } else {
        let x_inf = b_2.sp_neg().sp_div(a);
        let y_inf = f.sp_eval(x_inf);
        if !a.sp_signum().sp_eq_val(y_inf.sp_signum()) {
            (sp_find_open_max(3, f, df, x_inf, y_inf, tol), T::sp_nan(), T::sp_nan())
        } else {
            (sp_find_open_min(3, f, df, x_inf, y_inf, tol), T::sp_nan(), T::sp_nan())
        }
    }
}

/// Whether the quartic solver reduces the degree: the trailing
/// coefficients scaled by the reciprocal leading coefficient must all be
/// finite, else the leading coefficient is (nearly) zero.
pub open spec fn sp_quartic_degenerate<T: Float>(f: Polynomial<T, 5>) -> bool {
    let a_inv = f.c@[0].sp_recip();
    !(f.c@[1].sp_mul(a_inv).sp_is_finite() && f.c@[2].sp_mul(a_inv).sp_is_finite() && f.c@[
        3
    ].sp_mul(a_inv).sp_is_finite() && f.c@[4].sp_mul(a_inv).sp_is_finite())
}

/// The derivative the quartic solver isolates on:
/// `4·c0·x³ + 3·c1·x² + 2·c2·x + c3`.
pub open spec fn sp_quartic_deriv<T: Float>(f: Polynomial<T, 5>) -> Polynomial<T, 4> {
    let two = sp_two::<T>();
    let three = two.sp_add(T::sp_one());
    let four = two.sp_add(two);
    Polynomial {
        c: [
            four.sp_mul(f.c@[0]),
            three.sp_mul(f.c@[1]),
            two.sp_mul(f.c@[2]),
            f.c@[3],
        ],
    }
}

/// How many of the three cubic slots hold a finite derivative root.
pub open spec fn sp_finite_count<T: Float>(dr: (T, T, T)) -> int {
    (if dr.0.sp_is_finite() {
        1int
    } else {
        0int
    }) + (if dr.1.sp_is_finite() {
        1int
    } else {
        0int
    }) + (if dr.2.sp_is_finite() {
        1int
    } else {
        0int
    })
}

/// What the iterative quartic solver returns, as the four root slots in
/// ascending order. A degenerate leading coefficient reduces the degree:
/// the cubic solver handles the remaining coefficients and the fourth
/// slot stays empty. Otherwise the derivative's finite roots split the
/// line into monotonic intervals, walked left to right; each contributes
/// a root exactly when its end signs admit one; the rest is sentinel
/// padding.
pub open spec fn sp_yuksel_quartic<T: Float>(f: Polynomial<T, 5>, tol: T) -> Seq<T> {
    if sp_quartic_degenerate(f) {
        let (q0, q1, q2) = sp_yuksel_cubic(
            Polynomial { c: [f.c@[1], f.c@[2], f.c@[3], f.c@[4]] },
            tol,
        );
        seq![q0, q1, q2, T::sp_nan()]
    } else {
        sp_yuksel_quartic_resolve(f, tol)
    }
}

/// The iterative quartic on a sound (non-degenerate) leading coefficient.
pub open spec fn sp_yuksel_quartic_resolve<T: Float>(f: Polynomial<T, 5>, tol: T) -> Seq<T> {
    let zero = T::sp_zero();
    let df = sp_quartic_deriv(f);
    let dr = sp_yuksel_cubic(df, tol);
    let nd = sp_finite_count(dr);
    if nd > 0 {
        let lead_neg = f.c@[0].sp_lt(zero);
        let xa0 = dr.0;
        let ya0 = f.sp_eval(xa0);
        let head = if ya0.sp_lt(zero) != lead_neg {
            seq![sp_find_open_min(4, f, df, xa0, ya0, tol)]
        } else {
            Seq::<T>::empty()
        };
        let xb1 = dr.1;
        let yb1 = f.sp_eval(xb1);
        let mid1 = if nd >= 2 && (ya0.sp_lt(zero) != yb1.sp_lt(zero)) {
            seq![sp_find_closed(4, f, df, xa0, xb1, ya0, tol)]
        } else {
            Seq::<T>::empty()
        };
        let xa1 = if nd >= 2 {
            xb1
        } else {
            xa0
        };
        let ya1 = if nd >= 2 {
            yb1
        } else {
            ya0
        };
        let xb2 = dr.2;
        let yb2 = f.sp_eval(xb2);
        let mid2 = if nd >= 3 && (ya1.sp_lt(zero) != yb2.sp_lt(zero)) {
            seq![sp_find_closed(4, f, df, xa1, xb2, ya1, tol)]
        } else {
            Seq::<T>::empty()
        };
        let xa2 = if nd >= 3 {
            xb2
        } else {
            xa1
        };
        let ya2 = if nd >= 3 {
            yb2
        } else {
            ya1
        };
        let tail = if ya2.sp_lt(zero) != lead_neg {
            seq![sp_find_open_max(4, f, df, xa2, ya2, tol)]
        } else {
            Seq::<T>::empty()
        };
        let s = head + mid1 + mid2 + tail;
        s + Seq::new((4 - s.len()) as nat, |i| T::sp_nan())
    } else {
        seq![T::sp_nan(), T::sp_nan(), T::sp_nan(), T::sp_nan()]
    }
}

/// Root-count law for the iterative quadratic: a negative discriminant
/// fills both slots with the sentinel (a complex conjugate pair); a zero
/// discriminant fills exactly one slot, the other holding the sentinel.
pub proof fn lemma_yuksel_quadratic_root_count<T: Float>(a: T, b: T, c: T)
    ensures
        sp_yuksel_quad_disc(a, b, c).sp_lt(T::sp_zero()) && !T::sp_zero().sp_lt(
            sp_yuksel_quad_disc(a, b, c),
        ) ==> sp_yuksel_quadratic(a, b, c) == (T::sp_nan(), T::sp_nan()),
        !sp_yuksel_quad_disc(a, b, c).sp_lt(T::sp_zero()) && !T::sp_zero().sp_lt(
            sp_yuksel_quad_disc(a, b, c),
        ) ==> sp_yuksel_quadratic(a, b, c).1 == T::sp_nan(),
{
}

/// Degenerate-input law, mirroring the closed-form family: when the
/// depressed parameters come out non-finite, the iterative cubic answers
/// exactly what the iterative quadratic answers on the trailing
/// coefficients, with the third slot holding the sentinel.
pub proof fn lemma_yuksel_cubic_degenerate_fallback<T: Float>(f: Polynomial<T, 4>, tol: T)
    ensures
        sp_cubic_degenerate(f.c@[0], f.c@[1], f.c@[2], f.c@[3]) ==> sp_yuksel_cubic(f, tol) == (
            sp_yuksel_quadratic(f.c@[1], f.c@[2], f.c@[3]).0,
            sp_yuksel_quadratic(f.c@[1], f.c@[2], f.c@[3]).1,
            T::sp_nan(),
        ),
{
}

/// Degenerate-input law for the quartic: a (nearly) zero leading
/// coefficient reduces to the iterative cubic on the trailing
/// coefficients, the fourth slot holding the sentinel.
pub proof fn lemma_yuksel_quartic_degenerate_fallback<T: Float>(f: Polynomial<T, 5>, tol: T)
    ensures
        sp_quartic_degenerate(f) ==> sp_yuksel_quartic(f, tol) == ({
            let q = sp_yuksel_cubic(Polynomial { c: [f.c@[1], f.c@[2], f.c@[3], f.c@[4]] }, tol);
            seq![q.0, q.1, q.2, T::sp_nan()]
        }),
{
}

/// Determinism: two runs of the iterative quadratic solver on equal
/// coefficients return equal root pairs.
pub proof fn lemma_yuksel_quadratic_deterministic<T: Float>(
    a: T,
    b: T,
    c: T,
    r1: (T, T),
    r2: (T, T),
)
    requires
        r1 == sp_yuksel_quadratic(a, b, c),
        r2 == sp_yuksel_quadratic(a, b, c),
    ensures
        r1 == r2,
{
}

/// Determinism: two runs of the iterative quartic solver on an equal
/// polynomial and tolerance return equal root sequences.
pub proof fn lemma_yuksel_quartic_deterministic<T: Float>(
    f: Polynomial<T, 5>,
    tol: T,
    r1: Seq<T>,
    r2: Seq<T>,
)
    requires
        r1 == sp_yuksel_quartic(f, tol),
        r2 == sp_yuksel_quartic(f, tol),
    ensures
        r1 == r2,
{
}

/// The quartic answer always carries exactly four slots, however many
/// monotonic intervals contributed a root.
pub proof fn lemma_yuksel_quartic_four_slots<T: Float>(f: Polynomial<T, 5>, tol: T)
    ensures
        sp_yuksel_quartic(f, tol).len() == 4,
{
}

/// Iterative quadratic roots, ascending; see `sp_yuksel_quadratic` for the
/// slot layout per discriminant sign.
pub fn roots_quadratic<T: Float>(p: &Polynomial<T, 3>) -> (r: [T; 2])
    ensures
        (r[0], r[1]) == sp_yuksel_quadratic(p.c@[0], p.c@[1], p.c@[2]),
{
    let zero = T::zero();
    let one = T::one();
    let two = one.add(one);
    let four = two.add(two);
    let half_neg = one.div(two).neg();
    let a = p.c[0];
    let b = p.c[1];
    let c = p.c[2];
    let delta = b.mul(b).sub(four.mul(a).mul(c));
    if delta.gt(zero) {
        let d = delta.sqrt();
        let q = half_neg.mul(b.add(d.copysign(b.signum())));
        let rv0 = q.div(a);
        let rv1 = c.div(q);
        [rv0.min(rv1), rv0.max(rv1)]
    } else if delta.lt(zero) {
        [T::nan(), T::nan()]
    } else {
        [half_neg.mul(b).div(a), T::nan()]
    }
}

/// Iterative cubic roots, ascending, sentinel-padded. A (nearly) zero
/// leading coefficient reduces the degree to the quadratic solver on the
/// remaining coefficients.
pub fn roots_cubic<T: Float>(f: &Polynomial<T, 4>, tol: T) -> (r: [T; 3])
    ensures
        (r[0], r[1], r[2]) == sp_yuksel_cubic(*f, tol),
{
    let one = T::one();
    let a_inv = f.c[0].recip();
    let one_third = one.div(one.add(one).add(one));
    let db = f.c[1].mul(one_third.mul(a_inv));
    let dc = f.c[2].mul(one_third.mul(a_inv));
    let dd = f.c[3].mul(a_inv);
    if !(db.is_finite() && dc.is_finite() && dd.is_finite()) {
        let q = roots_quadratic(&Polynomial::<T, 3>::from([f.c[1], f.c[2], f.c[3]]));
        return [q[0], q[1], T::nan()];
    }
    let zero = T::zero();
    let two = one.add(one);
    let three = two.add(one);
    let a = f.c[0].mul(three);
    let b_2 = f.c[1];
    let cc = f.c[2];
    let df = Polynomial::<T, 3>::from([a, two.mul(b_2), cc]);
    proof {
        assert(df == sp_cubic_deriv(*f));
    }
    let delta_4 = b_2.mul(b_2).sub(a.mul(cc));
    if delta_4.gt(zero) {
        let d_2 = delta_4.sqrt();
        let q = b_2.add(d_2.mul(if b_2.signum().lt(zero) {
            one.neg()
        } else {
            one
        })).neg();
        let rv0 = q.div(a);
        let rv1 = cc.div(q);
        let xa = rv0.min(rv1);
        let xb = rv0.max(rv1);
        let ya = f.eval(xa);
        let yb = f.eval(xb);
        if a.signum().eq_val(ya.signum()) {
            let r0 = find_open_min(3, f, &df, xa, ya, tol);
            if ya.lt(zero) != yb.lt(zero) {
                let r1 = find_closed(3, f, &df, xa, xb, zero, zero, tol);
                let r2 = find_open_max(3, f, &df, xb, yb, tol);
                [r0, r1, r2]
            } else {
                [r0, T::nan(), T::nan()]
            }
        } else {
            [find_open_max(3, f, &df, xb, yb, tol), T::nan(), T::nan()]
        }
    } else {
        let x_inf = b_2.neg().div(a);
        let y_inf = f.eval(x_inf);
        if !a.signum().eq_val(y_inf.signum()) {
            [find_open_max(3, f, &df, x_inf, y_inf, tol), T::nan(), T::nan()]
        } else {
            [find_open_min(3, f, &df, x_inf, y_inf, tol), T::nan(), T::nan()]
        }
    }
}

/// Iterative quartic roots, ascending, sentinel-padded. A (nearly) zero
/// leading coefficient reduces the degree to the cubic solver on the
/// remaining coefficients.
pub fn roots_quartic<T: Float>(f: &Polynomial<T, 5>, tol: T) -> (r: [T; 4])
    ensures
        r@ == sp_yuksel_quartic(*f, tol),
{
    let a_inv = f.c[0].recip();
    if !(f.c[1].mul(a_inv).is_finite() && f.c[2].mul(a_inv).is_finite() && f.c[3].mul(
        a_inv,
    ).is_finite() && f.c[4].mul(a_inv).is_finite()) {
        let q = roots_cubic(&Polynomial::<T, 4>::from([f.c[1], f.c[2], f.c[3], f.c[4]]), tol);
        let out = [q[0], q[1], q[2], T::nan()];
        proof {
            assert(out@ =~= sp_yuksel_quartic(*f, tol));
        }
        return out;
    }
    let zero = T::zero();
    let one = T::one();
    let two = one.add(one);
    let three = two.add(one);
    let four = two.add(two);
    let df = Polynomial::<T, 4>::from(
        [four.mul(f.c[0]), three.mul(f.c[1]), two.mul(f.c[2]), f.c[3]],
    );
    proof {
        assert(df == sp_quartic_deriv(*f));
    }
    let dr = roots_cubic(&df, tol);
    let nd: usize = (if dr[0].is_finite() {
        1
    } else {
        0
    }) + (if dr[1].is_finite() {
        1
    } else {
        0
    }) + (if dr[2].is_finite() {
        1
    } else {
        0
    });
    let mut v: Vec<T> = Vec::new();
    if nd > 0 {
        let lead_neg = f.c[0].lt(zero);
        let xa0 = dr[0];
        let ya0 = f.eval(xa0);
        if ya0.lt(zero) != lead_neg {
            v.push(find_open_min(4, f, &df, xa0, ya0, tol));
        }
        let mut xa = xa0;
        let mut ya = ya0;
        if nd >= 2 {
            let xb = dr[1];
            let yb = f.eval(xb);
            if ya.lt(zero) != yb.lt(zero) {
                v.push(find_closed(4, f, &df, xa, xb, ya, yb, tol));
            }
            xa = xb;
            ya = yb;
        }
        if nd >= 3 {
            let xb = dr[2];
            let yb = f.eval(xb);
            if ya.lt(zero) != yb.lt(zero) {
                v.push(find_closed(4, f, &df, xa, xb, ya, yb, tol));
            }
            xa = xb;
            ya = yb;
        }
        if ya.lt(zero) != lead_neg {
            v.push(find_open_max(4, f, &df, xa, ya, tol));
        }
        let out = [
            if v.len() > 0 {
                v[0]
            } else {
                T::nan()
            },
            if v.len() > 1 {
                v[1]
            } else {
                T::nan()
            },
            if v.len() > 2 {
                v[2]
            } else {
                T::nan()
            },
            if v.len() > 3 {
                v[3]
            } else {
                T::nan()
            },
        ];
        proof {
            assert(out@ =~= sp_yuksel_quartic(*f, tol));
        }
        out
    } else {
        let out = [T::nan(), T::nan(), T::nan(), T::nan()];
        proof {
            assert(out@ =~= sp_yuksel_quartic(*f, tol));
        }
        out
    }
}

} // verus!
