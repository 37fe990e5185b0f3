//! The rendering backends that the engine knows of.
use vstd::prelude::*;

verus! {

/// The graphics interface that renders a frame.
#[derive(Debug, Clone, Copy, PartialEq, Eq, Structural)]
pub enum RendererAPI {
    /// No graphics interface.
    NoApi,
    OpenGL,
}

} // verus!
