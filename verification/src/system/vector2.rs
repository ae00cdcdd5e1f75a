//! Vectors of two components.

use crate::native::scalar::CFloat;
use vstd::prelude::*;

verus! {

/// A vector of two single-precision components.
#[derive(Clone, Copy, PartialEq, Eq, Debug, Structural)]
pub struct Vector2f {
    /// The first component.
    pub x: CFloat,
    /// The second component.
    pub y: CFloat,
}

} // verus!
