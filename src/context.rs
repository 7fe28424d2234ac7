use vstd::prelude::*;

verus! {

/// The family of an OpenGL implementation.
#[derive(Clone, Copy, Debug, PartialEq, Eq, Structural)]
pub enum Api {
    /// Desktop OpenGL.
    Gl,
    /// OpenGL ES.
    GlEs,
}

/// An API and its major and minor version.
#[derive(Clone, Copy, Debug, PartialEq, Eq, Structural)]
pub struct GlVersion(pub Api, pub u8, pub u8);

/// What render targets read of the context that they draw with.
#[derive(Clone, Copy, Debug)]
pub struct Context {
    pub version: GlVersion,
    /// Whether `GL_EXT_transform_feedback` is available.
    pub gl_ext_transform_feedback: bool,
    /// The largest viewport width and height that the backend accepts.
    pub max_viewport_dims: (u32, u32),
}

} // verus!
