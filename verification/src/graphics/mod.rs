//! Graphics primitives: blend modes, colours, textures and shaders.

pub mod blend_mode;
pub mod color;
pub mod shader;
pub mod texture;

pub use self::blend_mode::BlendMode;
pub use self::color::Color;
pub use self::shader::rc::{Shader, ShaderCall};
pub use self::texture::Texture;
