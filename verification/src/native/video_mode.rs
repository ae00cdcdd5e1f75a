//! The native layer's display-mode structure.

use libc::c_uint;
use vstd::prelude::*;

verus! {

/// A display mode as the native layer passes it by value: three unsigned
/// integers, in this order.
#[derive(Clone, Copy, PartialEq, Eq, Hash, Debug, Structural)]
pub struct SfVideoMode {
    /// Width, in pixels.
    pub width: c_uint,
    /// Height, in pixels.
    pub height: c_uint,
    /// Depth, in bits per pixel.
    pub bits_per_pixel: c_uint,
}

} // verus!
