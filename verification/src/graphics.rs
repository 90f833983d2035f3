//! Platform-agnostic graphics rendering interfaces.

pub mod opengl;
pub mod renderer;
pub mod webgl;
