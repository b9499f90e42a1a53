//! Root-solver families.
//!
//! `blinn` holds the closed-form, cancellation-hardened quadratic and cubic
//! solver; `yuksel` holds the iterative solver that isolates roots between
//! derivative roots and refines each bracket with safeguarded Newton steps.

pub mod blinn;
pub mod yuksel;
