//! Plain values shared by the other modules.

pub mod vector2;
pub mod vector3;

pub use self::vector2::Vector2f;
pub use self::vector3::Vector3f;
