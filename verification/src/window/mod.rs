//! Window primitives: display modes.

pub mod video_mode;

pub use self::video_mode::{VideoMode, VideoModeCall};
