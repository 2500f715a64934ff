//! Wrappers that own the GPU objects of a small renderer: a buffer of vertex,
//! index or constant data, a linked shader program, and a vertex layout.
//!
//! Each wrapper records the native graphics calls it needs into a
//! [`commands::CommandList`] instead of issuing them; the caller issues them on
//! the current context, in order. The effect of a list is stated over
//! [`commands::GlState`], a model of the context's binding and storage state.
use vstd::prelude::*;

pub mod buffer;
pub mod commands;
pub mod error;
pub mod frame;
pub mod laws;
pub mod shader;
pub mod vertexdescriptor;

verus! {

} // verus!
