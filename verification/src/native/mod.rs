//! Values in the form in which they cross the boundary to the native layer.

pub mod handle;
pub mod scalar;
pub mod sfml_types;
pub mod text;
pub mod video_mode;

pub use self::handle::Handle;
pub use self::scalar::CFloat;
pub use self::sfml_types::SfBool;
pub use self::text::NativeText;
pub use self::video_mode::SfVideoMode;
