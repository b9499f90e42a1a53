//! Verified numeric kernel for low-degree polynomial root finding.
//!
//! The core is `polynomial`, which stores a fixed-size coefficient
//! sequence and evaluates it with one explicit formula per degree, and
//! `solvers`, which finds all real roots of a quadratic, cubic or quartic:
//! a closed-form, cancellation-hardened family and an iterative family
//! built on derivative-root isolation with safeguarded Newton–bisection
//! refinement. Slots without a real root hold a not-a-number sentinel,
//! the only failure channel. `complex`, `vector` and `matrix` carry the
//! small algebraic entities around the core.
//!
//! Scalar arithmetic is abstract: the trait chain in `element`, `algebra`,
//! `natural`, `integer` and `float` names each operation a scalar type
//! must supply, together with an uninterpreted per-implementation model
//! of that operation, and obliges implementations to return what their
//! models say. Every executable function here carries a contract that
//! pins its result, under those models, to the exact chain of scalar
//! operations it performs — so all computation is a pure function of its
//! inputs, and two calls on equal inputs return equal values, whatever
//! scalar a caller supplies.

pub mod algebra;
pub mod complex;
pub mod element;
pub mod float;
pub mod integer;
pub mod matrix;
pub mod natural;
pub mod number;
pub mod polynomial;
pub mod solvers;
pub mod vector;
