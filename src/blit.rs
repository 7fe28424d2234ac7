//! Copies of a color region from one target to another.
use crate::attachment::{optional_view, FramebufferAttachments};
use crate::draw::Rect;
use crate::gl_enums::{COLOR_BUFFER_BIT, LINEAR, NEAREST};
use vstd::prelude::*;

verus! {

/// The filter used when a blit scales its source.
#[derive(Clone, Copy, Debug, PartialEq, Eq, Structural)]
pub enum MagnifySamplerFilter {
    Nearest,
    Linear,
}

/// The OpenGL name of a filter.
pub open spec fn filter_enum(f: MagnifySamplerFilter) -> u32 {
    match f {
        MagnifySamplerFilter::Nearest => NEAREST,
        MagnifySamplerFilter::Linear => LINEAR,
    }
}

impl MagnifySamplerFilter {
    /// The OpenGL name of this filter.
    pub fn to_glenum(&self) -> (r: u32)
        ensures
            r == filter_enum(*self),
    {
        match self {
            MagnifySamplerFilter::Nearest => NEAREST,
            MagnifySamplerFilter::Linear => LINEAR,
        }
    }
}

/// The destination rectangle of a blit. A negative width or height mirrors the copy.
#[derive(Clone, Copy, Debug, PartialEq, Eq, Structural)]
pub struct BlitTarget {
    pub left: u32,
    pub bottom: u32,
    pub width: i32,
    pub height: i32,
}

/// A blit ready for the driver: the attachments read and written (`None` for the on-screen
/// target), the buffers copied, both rectangles and the filter.
#[derive(Debug)]
pub struct BlitCommand {
    pub source: Option<FramebufferAttachments>,
    pub target: Option<FramebufferAttachments>,
    pub mask: u32,
    pub source_rect: Rect,
    pub target_rect: BlitTarget,
    pub filter: u32,
}

/// The attachments that a command holds, as a view.
pub open spec fn command_view(a: Option<FramebufferAttachments>) -> Option<
    (Seq<(u32, crate::attachment::Attachment)>, crate::attachment::DepthStencilAttachments),
> {
    match a {
        Some(a) => Some(a@),
        None => None,
    }
}

fn copy_optional(a: Option<&FramebufferAttachments>) -> (r: Option<FramebufferAttachments>)
    ensures
        command_view(r) == optional_view(a),
{
    match a {
        Some(a) => Some(a.duplicate()),
        None => None,
    }
}

/// Builds the blit of the color buffers of `source` into `target`. The rectangles need not have
/// the same size: the copy is scaled with `filter`.
pub fn blit_color_command(
    source: Option<&FramebufferAttachments>,
    target: Option<&FramebufferAttachments>,
    source_rect: &Rect,
    target_rect: &BlitTarget,
    filter: MagnifySamplerFilter,
) -> (r: BlitCommand)
    ensures
        command_view(r.source) == optional_view(source),
        command_view(r.target) == optional_view(target),
        r.mask == COLOR_BUFFER_BIT,
        r.source_rect == *source_rect,
        r.target_rect == *target_rect,
        r.filter == filter_enum(filter),
{
    BlitCommand {
        source: copy_optional(source),
        target: copy_optional(target),
        mask: COLOR_BUFFER_BIT,
        source_rect: *source_rect,
        target_rect: *target_rect,
        filter: filter.to_glenum(),
    }
}

} // verus!
