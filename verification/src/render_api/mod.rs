//! The rendering interface: the contexts and buffers a graphics backend
//! provides, vertex buffer layouts, shader sources and image data.
use vstd::prelude::*;

pub mod buffer;
pub mod open_gl;

verus! {

/// The ways compiling a shader program can fail.
#[derive(Debug, Clone, Copy, PartialEq, Eq, Structural)]
pub enum ShaderComplieError {
    VertexShaderCompileFailed,
    FragmentShaderCompileFailed,
    ShaderLinkFailure,
}

/// Records the vsync setting that a frame asks for in `vsync_enabled`; returns
/// whether it changed, in which case the context's swap interval is to be set
/// anew (and only then).
pub fn update_vsync(vsync_enabled: &mut bool, vsync: bool) -> (changed: bool)
    ensures
        changed == (*old(vsync_enabled) != vsync),
        *final(vsync_enabled) == vsync,
{
    if *vsync_enabled != vsync {
        *vsync_enabled = vsync;
        true
    } else {
        false
    }
}

/// A graphics context bound to a window, as a backend provides it.
pub trait GraphicsContext {
    /// Creates the context and makes it current.
    fn init(&mut self);

    /// Turns waiting for the vertical blank on or off.
    fn set_vsync(&mut self, vsync: bool);

    /// Shows the frame that was drawn.
    fn swap_buffers(&self);

    /// Makes the context no longer current.
    fn release_context(&mut self);

    /// Adapts the context to a window of the new size.
    fn on_resize(&mut self, width: u32, height: u32);
}

/// A buffer of vertex indices on the graphics device, as a backend provides it.
pub trait IndexBuffer {
    /// A buffer holding the first `size` of `indices`.
    fn new(indices: &[u32], size: usize) -> Self where Self: Sized;

    /// The number of indices in the buffer.
    fn get_count(&self) -> usize;

    fn bind(&self);

    fn unbind(&self);
}

} // verus!
