//! Signed scalars: ordered rings.

use vstd::prelude::*;

use crate::algebra::Ring;
use crate::natural::Natural;

verus! {

/// An ordered scalar that also forms a ring.
pub trait Integer: Natural + Ring {
}

} // verus!
