//! Shaders (vertex and fragment).

pub mod rc;
