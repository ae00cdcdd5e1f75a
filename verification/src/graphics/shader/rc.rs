//! Shaders (vertex and fragment).
//!
//! Shaders are programs written in GLSL, executed directly by the graphics
//! card, that apply real-time operations to the rendered entities.
//!
//! A [`Shader`] owns one shader of the native layer. Each of its operations
//! gives the [`ShaderCall`] that is to be made; the caller makes it at once.
//! A shader keeps alive every texture that it was given as a parameter,
//! until it ends.

use crate::graphics::color::Color;
use crate::graphics::texture::Texture;
use crate::native::handle::Handle;
use crate::native::scalar::CFloat;
use crate::native::sfml_types::SfBool;
use crate::native::text::{is_optional_form, native_form, passable, NativeText};
use crate::system::vector2::Vector2f;
use crate::system::vector3::Vector3f;
use crate::traits::Wrappable;
use std::rc::Rc;
use vstd::prelude::*;

verus! {

/// One call into the native layer's shader interface: the entry point, and
/// the arguments as they cross the boundary.
#[allow(inconsistent_fields)]
#[derive(PartialEq, Eq, Debug)]
pub enum ShaderCall {
    /// Create a shader from source files. A missing name crosses as a null
    /// pointer and skips that stage. Answer: the new handle, or null.
    CreateFromFile { vertex: Option<NativeText>, fragment: Option<NativeText> },
    /// Create a shader from source code in memory. A missing source crosses
    /// as a null pointer and skips that stage. Answer: the new handle, or
    /// null.
    CreateFromMemory { vertex: Option<NativeText>, fragment: Option<NativeText> },
    /// Set a scalar parameter.
    SetFloatParameter { shader: Handle, name: NativeText, x: CFloat },
    /// Set a parameter of two components.
    SetFloat2Parameter { shader: Handle, name: NativeText, x: CFloat, y: CFloat },
    /// Set a parameter of three components.
    SetFloat3Parameter { shader: Handle, name: NativeText, x: CFloat, y: CFloat, z: CFloat },
    /// Set a parameter of four components.
    SetFloat4Parameter {
        shader: Handle,
        name: NativeText,
        x: CFloat,
        y: CFloat,
        z: CFloat,
        w: CFloat,
    },
    /// Set a texture parameter to a given texture.
    SetTextureParameter { shader: Handle, name: NativeText, texture: Handle },
    /// Set a texture parameter to whatever texture is active at draw time.
    SetCurrentTextureParameter { shader: Handle, name: NativeText },
    /// Activate the shader for rendering.
    Bind { shader: Handle },
    /// Ask whether the system supports shaders. Answer: a native boolean.
    IsAvailable,
    /// Set a parameter of two components from a vector.
    SetVector2Parameter { shader: Handle, name: NativeText, vector: Vector2f },
    /// Set a parameter of three components from a vector.
    SetVector3Parameter { shader: Handle, name: NativeText, vector: Vector3f },
    /// Set a parameter of four components from a colour.
    SetColorParameter { shader: Handle, name: NativeText, color: Color },
    /// Release the shader. Its handle is dead afterwards.
    Destroy { shader: Handle },
}

/// A shader of the native layer, owned by this object, and the textures
/// that it was given as parameters.
///
/// The native layer stores only a handle to a texture that is set, not a
/// copy, and it may read each of them whenever it draws. So the object
/// keeps a shared reference to every texture that it was given, in the
/// order in which they came, for its whole life. It does not own them.
#[derive(Debug)]
pub struct Shader {
    shader: Handle,
    textures: Vec<Rc<Texture>>,
}

impl Shader {
    #[verifier::type_invariant]
    spec fn owns_a_shader(self) -> bool {
        !self.shader.is_null()
    }

    /// The textures that this shader keeps alive: every one that it was
    /// given, oldest first.
    pub closed spec fn retained(&self) -> Seq<Rc<Texture>> {
        self.textures@
    }

    /// The call that loads the vertex and the fragment shader from files.
    ///
    /// Either name may be missing: that stage is then skipped, and a null
    /// pointer crosses the boundary in place of the name.
    pub fn new_from_file(
        vertex_shader_filename: Option<&str>,
        fragment_shader_filename: Option<&str>,
    ) -> (call: ShaderCall)
        requires
            vertex_shader_filename matches Some(name) ==> passable(name),
            fragment_shader_filename matches Some(name) ==> passable(name),
        ensures
            (call matches ShaderCall::CreateFromFile { vertex, fragment }
                && is_optional_form(vertex, vertex_shader_filename)
                && is_optional_form(fragment, fragment_shader_filename)),
    {
        ShaderCall::CreateFromFile {
            vertex: NativeText::optional(vertex_shader_filename),
            fragment: NativeText::optional(fragment_shader_filename),
        }
    }

    /// The call that loads the vertex and the fragment shader from source
    /// code in memory.
    ///
    /// Either source may be missing: that stage is then skipped, and a null
    /// pointer crosses the boundary in place of the source.
    pub fn new_from_memory(
        vertex_shader: Option<&str>,
        fragment_shader: Option<&str>,
    ) -> (call: ShaderCall)
        requires
            vertex_shader matches Some(source) ==> passable(source),
            fragment_shader matches Some(source) ==> passable(source),
        ensures
            (call matches ShaderCall::CreateFromMemory { vertex, fragment }
                && is_optional_form(vertex, vertex_shader)
                && is_optional_form(fragment, fragment_shader)),
    {
        ShaderCall::CreateFromMemory {
            vertex: NativeText::optional(vertex_shader),
            fragment: NativeText::optional(fragment_shader),
        }
    }

    /// The shader that the native layer created, from its answer to a
    /// creating call: nothing where the answer is the null handle, and else
    /// a shader that owns the handle and keeps no texture yet.
    pub fn from_created(handle: Handle) -> (shader: Option<Shader>)
        ensures
            shader is None <==> handle.is_null(),
            shader matches Some(s) ==> s.raw() == handle && s.retained().len() == 0,
    {
        if handle.is_null() {
            None
        } else {
            Some(Shader { shader: handle, textures: Vec::new() })
        }
    }

    /// The textures that this shader keeps alive: every one that it was
    /// given, oldest first.
    pub fn textures(&self) -> (kept: &[Rc<Texture>])
        ensures
            kept@ == self.retained(),
    {
        self.textures.as_slice()
    }

    /// The call that changes a scalar parameter of the shader.
    pub fn set_float_parameter(&mut self, name: &str, x: CFloat) -> (call: ShaderCall)
        requires
            passable(name),
        ensures
            *final(self) == *old(self),
            (call matches ShaderCall::SetFloatParameter { shader, name: n, x: cx }
                && shader == old(self).raw() && n@ == native_form(name) && cx == x),
    {
        ShaderCall::SetFloatParameter { shader: self.shader, name: NativeText::new(name), x }
    }

    /// The call that changes a parameter of two components. The parameter
    /// in the shader must be a vector of two components.
    pub fn set_float_2_parameter(&mut self, name: &str, x: CFloat, y: CFloat) -> (call: ShaderCall)
        requires
            passable(name),
        ensures
            *final(self) == *old(self),
            (call matches ShaderCall::SetFloat2Parameter { shader, name: n, x: cx, y: cy }
                && shader == old(self).raw() && n@ == native_form(name) && cx == x && cy == y),
    {
        ShaderCall::SetFloat2Parameter { shader: self.shader, name: NativeText::new(name), x, y }
    }

    /// The call that changes a parameter of three components. The parameter
    /// in the shader must be a vector of three components.
    pub fn set_float_3_parameter(
        &mut self,
        name: &str,
        x: CFloat,
        y: CFloat,
        z: CFloat,
    ) -> (call: ShaderCall)
        requires
            passable(name),
        ensures
            *final(self) == *old(self),
            (call matches ShaderCall::SetFloat3Parameter { shader, name: n, x: cx, y: cy, z: cz }
                && shader == old(self).raw() && n@ == native_form(name) && cx == x && cy == y
                && cz == z),
    {
        ShaderCall::SetFloat3Parameter {
            shader: self.shader,
            name: NativeText::new(name),
            x,
            y,
            z,
        }
    }

    /// The call that changes a parameter of four components. The parameter
    /// in the shader must be a vector of four components.
    pub fn set_float_4_parameter(
        &mut self,
        name: &str,
        x: CFloat,
        y: CFloat,
        z: CFloat,
        w: CFloat,
    ) -> (call: ShaderCall)
        requires
            passable(name),
        ensures
            *final(self) == *old(self),
            (call matches ShaderCall::SetFloat4Parameter {
                shader,
                name: n,
                x: cx,
                y: cy,
                z: cz,
                w: cw,
            } && shader == old(self).raw() && n@ == native_form(name) && cx == x && cy == y
                && cz == z && cw == w),
    {
        ShaderCall::SetFloat4Parameter {
            shader: self.shader,
            name: NativeText::new(name),
            x,
            y,
            z,
            w,
        }
    }

    /// The call that changes a texture parameter of the shader.
    ///
    /// From now on the shader keeps `texture` alive, beside every texture
    /// that it was given before: the native layer may read each of them
    /// whenever it draws, under whatever name it was set.
    pub fn set_texture_parameter(&mut self, name: &str, texture: Rc<Texture>) -> (call: ShaderCall)
        requires
            passable(name),
        ensures
            final(self).raw() == old(self).raw(),
            final(self).retained() == old(self).retained().push(texture),
            (call matches ShaderCall::SetTextureParameter { shader, name: n, texture: t }
                && shader == old(self).raw() && n@ == native_form(name) && t == texture.raw()),
    {
        let call = ShaderCall::SetTextureParameter {
            shader: self.shader,
            name: NativeText::new(name),
            texture: texture.unwrap(),
        };
        proof {
            use_type_invariant(&*self);
        }
        let mut taken = Shader { shader: self.shader, textures: Vec::new() };
        std::mem::swap(self, &mut taken);
        let Shader { shader, textures } = taken;
        let mut textures = textures;
        textures.push(texture);
        let mut next = Shader { shader, textures };
        std::mem::swap(self, &mut next);
        call
    }

    /// The call that maps a texture parameter of the shader to the texture
    /// of the object being drawn, which cannot be known in advance. No
    /// texture is named, so the shader keeps none alive for it.
    pub fn set_current_texture_parameter(&self, name: &str) -> (call: ShaderCall)
        requires
            passable(name),
        ensures
            (call matches ShaderCall::SetCurrentTextureParameter { shader, name: n }
                && shader == self.raw() && n@ == native_form(name)),
    {
        ShaderCall::SetCurrentTextureParameter {
            shader: self.shader,
            name: NativeText::new(name),
        }
    }

    /// The call that binds the shader for rendering. It is for code that
    /// mixes the shader with rendering of its own.
    pub fn bind(&mut self) -> (call: ShaderCall)
        ensures
            *final(self) == *old(self),
            call == (ShaderCall::Bind { shader: old(self).raw() }),
    {
        ShaderCall::Bind { shader: self.shader }
    }

    /// The call that asks whether the system supports shaders. It needs no
    /// shader and no state on this side.
    pub fn is_available_call() -> (call: ShaderCall)
        ensures
            call == ShaderCall::IsAvailable,
    {
        ShaderCall::IsAvailable
    }

    /// Whether the system supports shaders, from the native layer's answer
    /// to the call that [`Shader::is_available_call`] gives. Where it does
    /// not, every attempt to use a shader fails.
    ///
    /// The result depends on the answer alone: no state on this side enters.
    pub fn is_available(answer: SfBool) -> (available: bool)
        ensures
            available == answer.as_bool(),
    {
        answer.to_bool()
    }

    /// The call that changes a parameter of two components to a vector.
    pub fn set_vector2_parameter(&mut self, name: &str, vector: &Vector2f) -> (call: ShaderCall)
        requires
            passable(name),
        ensures
            *final(self) == *old(self),
            (call matches ShaderCall::SetVector2Parameter { shader, name: n, vector: v }
                && shader == old(self).raw() && n@ == native_form(name) && v == *vector),
    {
        ShaderCall::SetVector2Parameter {
            shader: self.shader,
            name: NativeText::new(name),
            vector: *vector,
        }
    }

    /// The call that changes a parameter of three components to a vector.
    pub fn set_vector3_parameter(&mut self, name: &str, vector: &Vector3f) -> (call: ShaderCall)
        requires
            passable(name),
        ensures
            *final(self) == *old(self),
            (call matches ShaderCall::SetVector3Parameter { shader, name: n, vector: v }
                && shader == old(self).raw() && n@ == native_form(name) && v == *vector),
    {
        ShaderCall::SetVector3Parameter {
            shader: self.shader,
            name: NativeText::new(name),
            vector: *vector,
        }
    }

    /// The call that changes a parameter of four components to a colour.
    ///
    /// The four components cross the boundary as they are, from 0 to 255;
    /// the native layer scales them before the shader sees them.
    pub fn set_color_parameter(&mut self, name: &str, color: &Color) -> (call: ShaderCall)
        requires
            passable(name),
        ensures
            *final(self) == *old(self),
            (call matches ShaderCall::SetColorParameter { shader, name: n, color: c }
                && shader == old(self).raw() && n@ == native_form(name) && c == *color),
    {
        ShaderCall::SetColorParameter {
            shader: self.shader,
            name: NativeText::new(name),
            color: *color,
        }
    }

    /// Ends the shader: the call that releases it in the native layer, and
    /// every texture that it kept alive, to be let go of once the call is
    /// made.
    ///
    /// The object is used up, so the shader is released once.
    pub fn destroy(self) -> (result: (ShaderCall, Vec<Rc<Texture>>))
        ensures
            result.0 == (ShaderCall::Destroy { shader: self.raw() }),
            result.1@ == self.retained(),
    {
        let Shader { shader, textures } = self;
        (ShaderCall::Destroy { shader }, textures)
    }
}

impl Wrappable<Handle> for Shader {
    open spec fn accepts(native: Handle) -> bool {
        !native.is_null()
    }

    closed spec fn raw(&self) -> Handle {
        self.shader
    }

    fn wrap(native: Handle) -> (wrapper: Shader)
        ensures
            wrapper.retained().len() == 0,
    {
        Shader { shader: native, textures: Vec::new() }
    }

    fn unwrap(&self) -> (native: Handle)
        ensures
            !native.is_null(),
    {
        proof {
            use_type_invariant(self);
        }
        self.shader
    }
}

/// A texture that a shader keeps stays kept, in its place, when the shader is
/// given another; the one given last comes last.
pub proof fn lemma_given_texture_stays_kept(kept: Seq<Rc<Texture>>, texture: Rc<Texture>)
    ensures
        kept.push(texture).len() == kept.len() + 1,
        kept.push(texture).last() == texture,
        forall|i: int| 0 <= i < kept.len() ==> kept.push(texture)[i] == kept[i],
{
}

/// Asking again whether shaders are available gives the same result for as
/// long as the native layer gives the same answer, and another result as
/// soon as it gives the other.
pub proof fn lemma_is_available_follows_answer(first: SfBool, second: SfBool)
    ensures
        first == second <==> first.as_bool() == second.as_bool(),
{
}

} // verus!
