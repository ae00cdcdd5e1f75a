//! Textures, as far as a shader needs them.

use crate::native::handle::Handle;
use crate::traits::Wrappable;
use vstd::prelude::*;

verus! {

/// An image that lives on the graphics card. The object owns one texture of
/// the native layer, by its handle, which is never null.
///
/// Several wrapper objects may use one texture at once; they share it by
/// reference count.
#[derive(Debug)]
pub struct Texture {
    texture: Handle,
}

impl Texture {
    #[verifier::type_invariant]
    spec fn owns_a_texture(self) -> bool {
        !self.texture.is_null()
    }
}

impl Wrappable<Handle> for Texture {
    open spec fn accepts(native: Handle) -> bool {
        !native.is_null()
    }

    closed spec fn raw(&self) -> Handle {
        self.texture
    }

    fn wrap(native: Handle) -> (wrapper: Texture) {
        Texture { texture: native }
    }

    fn unwrap(&self) -> (native: Handle)
        ensures
            !native.is_null(),
    {
        proof {
            use_type_invariant(self);
        }
        self.texture
    }
}

} // verus!
