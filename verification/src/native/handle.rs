//! Opaque references to resources of the native layer.

use vstd::prelude::*;

verus! {

/// A reference to a resource that the native layer created: pointer-sized,
/// and opaque on this side of the boundary. The native layer reports a
/// failed creation by the null handle, whose address is zero.
///
/// A handle is a plain value and may be copied; which wrapper object owns
/// the resource behind it is the wrapper's business.
#[derive(Clone, Copy, PartialEq, Eq, Hash, Debug, Structural)]
pub struct Handle {
    /// The address that the native layer gave out.
    pub address: usize,
}

impl Handle {
    /// Whether this is the null handle.
    pub open spec fn is_null_spec(self) -> bool {
        self.address == 0
    }

    /// The null handle.
    pub fn null() -> (handle: Handle)
        ensures
            handle.address == 0,
    {
        Handle { address: 0 }
    }

    /// Whether this is the null handle.
    #[verifier::when_used_as_spec(is_null_spec)]
    pub fn is_null(self) -> (null: bool)
        ensures
            null == (self.address == 0),
    {
        self.address == 0
    }
}

} // verus!
