//! Vectors of three components.

use crate::native::scalar::CFloat;
use vstd::prelude::*;

verus! {

/// A vector of three single-precision components.
#[derive(Clone, Copy, PartialEq, Eq, Debug, Structural)]
pub struct Vector3f {
    /// The first component.
    pub x: CFloat,
    /// The second component.
    pub y: CFloat,
    /// The third component.
    pub z: CFloat,
}

} // verus!
