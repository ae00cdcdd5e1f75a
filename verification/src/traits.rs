//! The contract between a wrapper object and the native value it stands for.

use vstd::prelude::*;

verus! {

/// An object of this side that stands for a value `T` of the native layer.
///
/// Wrapping a native value and unwrapping the result gives the native value
/// back, whatever the implementing type.
pub trait Wrappable<T>: Sized {
    /// Whether `native` may be wrapped.
    spec fn accepts(native: T) -> bool;

    /// The native value that this object stands for.
    spec fn raw(&self) -> T;

    /// Takes `native` over into a new wrapper object.
    fn wrap(native: T) -> (wrapper: Self)
        requires
            Self::accepts(native),
        ensures
            wrapper.raw() == native,
    ;

    /// The native value, for a call into the native layer. It is lent: the
    /// object goes on standing for it.
    fn unwrap(&self) -> (native: T)
        ensures
            native == self.raw(),
    ;
}

} // verus!
