//! The parameters of a draw and the checks made on them before anything is drawn.
use crate::attachment::FramebufferAttachments;
use crate::vertex::VerticesSource;
use vstd::prelude::*;

verus! {

/// Why a draw was refused.
#[derive(Debug, PartialEq, Eq)]
pub enum DrawError {
    /// The parameters need a depth buffer and the target has none.
    NoDepthBuffer,
    /// The viewport is wider or taller than the backend allows.
    ViewportTooLarge,
    /// The target names a color output that the program does not have.
    FragmentOutputNotFound(String),
}

/// The comparison that decides whether a fragment replaces the stored depth.
#[derive(Clone, Copy, Debug, PartialEq, Eq, Structural)]
pub enum DepthTest {
    /// Never replace the target pixel.
    Ignore,
    /// Always replace the target pixel.
    Overwrite,
    IfEqual,
    IfNotEqual,
    IfMore,
    IfMoreOrEqual,
    IfLess,
    IfLessOrEqual,
}

/// Whether the test reads the stored depth: all but `Ignore` and `Overwrite` do.
pub open spec fn test_reads_depth(t: DepthTest) -> bool {
    !(t is Ignore || t is Overwrite)
}

impl DepthTest {
    /// Whether this test needs a depth buffer.
    pub fn requires_depth_buffer(&self) -> (r: bool)
        ensures
            r == test_reads_depth(*self),
    {
        match self {
            DepthTest::Ignore => false,
            DepthTest::Overwrite => false,
            _ => true,
        }
    }
}

/// A rectangle of pixels, from its bottom-left corner.
#[derive(Clone, Copy, Debug, PartialEq, Eq, Structural)]
pub struct Rect {
    pub left: u32,
    pub bottom: u32,
    pub width: u32,
    pub height: u32,
}

/// The part of the draw parameters that render targets check.
#[derive(Clone, Copy, Debug, PartialEq, Eq, Structural)]
pub struct DrawParameters {
    pub depth_test: DepthTest,
    /// Whether fragments write their depth.
    pub depth_write: bool,
    /// The part of the target to draw to; the whole target if `None`.
    pub viewport: Option<Rect>,
}

/// The first reason why a draw with `params` is refused on a target that has a depth buffer
/// or not, by a backend whose largest viewport is `max_viewport_dims`.
pub open spec fn draw_refusal(has_depth_buffer: bool, max_viewport_dims: (u32, u32), params: DrawParameters) -> Option<
    DrawError,
> {
    if !has_depth_buffer && (test_reads_depth(params.depth_test) || params.depth_write) {
        Some(DrawError::NoDepthBuffer)
    } else {
        match params.viewport {
            Some(v) => if v.width > max_viewport_dims.0 || v.height > max_viewport_dims.1 {
                Some(DrawError::ViewportTooLarge)
            } else {
                None
            },
            None => None,
        }
    }
}

/// The outcome of the checks as a `Result`.
pub open spec fn draw_check(has_depth_buffer: bool, max_viewport_dims: (u32, u32), params: DrawParameters) -> Result<
    (),
    DrawError,
> {
    match draw_refusal(has_depth_buffer, max_viewport_dims, params) {
        Some(e) => Err(e),
        None => Ok(()),
    }
}

/// Checks the parameters of a draw against a target and the backend's limits.
pub fn validate_draw(has_depth_buffer: bool, max_viewport_dims: (u32, u32), params: &DrawParameters) -> (r:
    Result<(), DrawError>)
    ensures
        r == draw_check(has_depth_buffer, max_viewport_dims, *params),
{
    if !has_depth_buffer && (params.depth_test.requires_depth_buffer() || params.depth_write) {
        return Err(DrawError::NoDepthBuffer);
    }
    if let Some(viewport) = params.viewport {
        if viewport.width > max_viewport_dims.0 {
            return Err(DrawError::ViewportTooLarge);
        }
        if viewport.height > max_viewport_dims.1 {
            return Err(DrawError::ViewportTooLarge);
        }
    }
    Ok(())
}

/// A checked draw, ready for the driver: the size of the target, its attachments with their
/// slots, the vertex sources in order, the program and the parameters.
#[derive(Debug)]
pub struct DrawCommand<'v> {
    pub dimensions: (u32, u32),
    pub attachments: FramebufferAttachments,
    pub vertex_sources: Vec<VerticesSource<'v>>,
    /// The native name of the program.
    pub program: u32,
    pub parameters: DrawParameters,
}

/// A draw that writes depth into a target without a depth buffer is refused for the missing
/// depth buffer, whatever the rest of its parameters.
pub proof fn lemma_depth_write_needs_depth_buffer(max_viewport_dims: (u32, u32), params: DrawParameters)
    requires
        params.depth_write,
    ensures
        draw_check(false, max_viewport_dims, params) == Err::<(), DrawError>(DrawError::NoDepthBuffer),
{
}

/// When the depth checks pass, a viewport is refused as too large exactly when its width or its
/// height exceeds the backend's maximum; one of exactly the maximum size is accepted.
pub proof fn lemma_viewport_limit(has_depth_buffer: bool, max_viewport_dims: (u32, u32), params: DrawParameters)
    requires
        has_depth_buffer || (!test_reads_depth(params.depth_test) && !params.depth_write),
        params.viewport is Some,
    ensures
        draw_check(has_depth_buffer, max_viewport_dims, params) == if params.viewport->Some_0.width
            > max_viewport_dims.0 || params.viewport->Some_0.height > max_viewport_dims.1 {
            Err::<(), DrawError>(DrawError::ViewportTooLarge)
        } else {
            Ok::<(), DrawError>(())
        },
        params.viewport->Some_0.width == max_viewport_dims.0 && params.viewport->Some_0.height
            == max_viewport_dims.1 ==> draw_check(has_depth_buffer, max_viewport_dims, params) is Ok,
{
}

/// A clear of a target, ready for the driver: its attachments and the values that the color,
/// depth and stencil buffers are set to, each left as it is if `None`. Color components and
/// depth are IEEE-754 bit patterns (`f32::to_bits`).
#[derive(Debug)]
pub struct ClearCommand {
    pub attachments: FramebufferAttachments,
    pub color: Option<[u32; 4]>,
    pub depth: Option<u32>,
    pub stencil: Option<i32>,
}

} // verus!
