//! The base capability every scalar of this library has.

use vstd::prelude::*;

verus! {

/// A scalar element: a small value that can be freely copied.
pub trait Element: Sized + Copy {
}

} // verus!
