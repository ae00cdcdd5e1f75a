//! Verified core of a binding to a native multimedia library.
//!
//! The native library does the rendering, the shader compilation, the socket
//! work and the display enumeration. This crate holds what a binding decides
//! on its own side of the boundary: which native entry point is called with
//! which marshalled arguments, what an answer of the native layer means, who
//! owns a native handle, and which shared resources a wrapper keeps alive.
//!
//! Nothing here performs a native call. An operation that needs the native
//! layer comes as a function that builds the call (a plain value such as
//! [`graphics::ShaderCall`]) and, where the native layer answers, a function
//! that takes the answer and gives the result.

pub mod graphics;
pub mod native;
pub mod network;
pub mod system;
pub mod traits;
pub mod window;
