//! Colours.

use vstd::prelude::*;

verus! {

/// A colour of four components, each from 0 to 255.
///
/// Where a colour becomes a shader parameter, the native layer scales each
/// component to the range from zero to one; this side passes the four
/// integers as they are.
#[derive(Clone, Copy, PartialEq, Eq, Debug, Structural)]
pub struct Color {
    /// The red component.
    pub red: u8,
    /// The green component.
    pub green: u8,
    /// The blue component.
    pub blue: u8,
    /// The alpha component: the opacity.
    pub alpha: u8,
}

} // verus!
