//! A uniform constructor over every ordered scalar.

use vstd::prelude::*;

use crate::natural::Natural;

verus! {

/// A scalar that can be built from a plain value of its carrier type.
pub trait Number {
    type Type: Natural;

    fn new(value: Self::Type) -> (r: Self::Type)
        ensures
            r == value,
    ;
}

impl<T: Natural> Number for T {
    type Type = T;

    fn new(value: T) -> (r: T)
        ensures
            r == value,
    {
        value
    }
}

} // verus!
