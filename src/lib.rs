//! Derives the vertex-buffer layout that a graphics pipeline needs from the
//! declared input interface of a compiled shader module, and holds the handle
//! and input types shared with the native rendering layer.

pub mod classify;
pub mod emit;
pub mod input;
pub mod layout;
pub mod types;
pub mod vtk;
pub mod walker;
