use crate::gl_enums::{TEXTURE_2D, TEXTURE_2D_MULTISAMPLE};
use vstd::prelude::*;

verus! {

/// What the library knows of a GPU image: its native name and its size in pixels.
#[derive(Clone, Copy, Debug, PartialEq, Eq, Structural)]
pub struct Image {
    pub id: u32,
    pub width: u32,
    pub height: u32,
}

/// A two-dimensional color texture.
#[derive(Clone, Copy, Debug, PartialEq, Eq, Structural)]
pub struct Texture2d(pub Image);

/// A multisampled two-dimensional color texture.
#[derive(Clone, Copy, Debug, PartialEq, Eq, Structural)]
pub struct Texture2dMultisample(pub Image);

/// A two-dimensional depth texture.
#[derive(Clone, Copy, Debug, PartialEq, Eq, Structural)]
pub struct DepthTexture2d(pub Image);

/// A two-dimensional stencil texture.
#[derive(Clone, Copy, Debug, PartialEq, Eq, Structural)]
pub struct StencilTexture2d(pub Image);

/// A two-dimensional texture holding depth and stencil together.
#[derive(Clone, Copy, Debug, PartialEq, Eq, Structural)]
pub struct DepthStencilTexture2d(pub Image);

/// A color render buffer.
#[derive(Clone, Copy, Debug, PartialEq, Eq, Structural)]
pub struct RenderBuffer(pub Image);

/// A depth render buffer.
#[derive(Clone, Copy, Debug, PartialEq, Eq, Structural)]
pub struct DepthRenderBuffer(pub Image);

/// A stencil render buffer.
#[derive(Clone, Copy, Debug, PartialEq, Eq, Structural)]
pub struct StencilRenderBuffer(pub Image);

/// A render buffer holding depth and stencil together.
#[derive(Clone, Copy, Debug, PartialEq, Eq, Structural)]
pub struct DepthStencilRenderBuffer(pub Image);

/// One mipmap level of a borrowed texture.
#[derive(Clone, Copy, Debug)]
pub struct Mipmap<'a> {
    pub image: &'a Image,
    pub level: u32,
}

/// Describes an attachment for a color buffer.
#[derive(Clone, Copy, Debug)]
pub enum ColorAttachment<'a> {
    Texture1d(Mipmap<'a>),
    SrgbTexture1d(Mipmap<'a>),
    Texture2d(Mipmap<'a>),
    SrgbTexture2d(Mipmap<'a>),
    Texture2dMultisample(Mipmap<'a>),
    SrgbTexture2dMultisample(Mipmap<'a>),
    /// A texture and one of its layers.
    Texture3d(Mipmap<'a>, u32),
    /// A texture and one of its layers.
    SrgbTexture3d(Mipmap<'a>, u32),
    Texture1dArray(Mipmap<'a>),
    SrgbTexture1dArray(Mipmap<'a>),
    Texture2dArray(Mipmap<'a>),
    SrgbTexture2dArray(Mipmap<'a>),
    Texture2dMultisampleArray(Mipmap<'a>),
    SrgbTexture2dMultisampleArray(Mipmap<'a>),
    RenderBuffer(&'a RenderBuffer),
}

/// Describes an attachment for a depth buffer.
#[derive(Clone, Copy, Debug)]
pub enum DepthAttachment<'a> {
    Texture1d(Mipmap<'a>),
    Texture2d(Mipmap<'a>),
    Texture2dMultisample(Mipmap<'a>),
    /// A texture and one of its layers.
    Texture3d(Mipmap<'a>, u32),
    Texture1dArray(Mipmap<'a>),
    Texture2dArray(Mipmap<'a>),
    Texture2dMultisampleArray(Mipmap<'a>),
    RenderBuffer(&'a DepthRenderBuffer),
}

/// Describes an attachment for a stencil buffer.
#[derive(Clone, Copy, Debug)]
pub enum StencilAttachment<'a> {
    Texture1d(Mipmap<'a>),
    Texture2d(Mipmap<'a>),
    Texture2dMultisample(Mipmap<'a>),
    /// A texture and one of its layers.
    Texture3d(Mipmap<'a>, u32),
    Texture1dArray(Mipmap<'a>),
    Texture2dArray(Mipmap<'a>),
    Texture2dMultisampleArray(Mipmap<'a>),
    RenderBuffer(&'a StencilRenderBuffer),
}

/// Describes an attachment for a combined depth and stencil buffer.
#[derive(Clone, Copy, Debug)]
pub enum DepthStencilAttachment<'a> {
    Texture1d(Mipmap<'a>),
    Texture2d(Mipmap<'a>),
    Texture2dMultisample(Mipmap<'a>),
    /// A texture and one of its layers.
    Texture3d(Mipmap<'a>, u32),
    Texture1dArray(Mipmap<'a>),
    Texture2dArray(Mipmap<'a>),
    Texture2dMultisampleArray(Mipmap<'a>),
    RenderBuffer(&'a DepthStencilRenderBuffer),
}

/// Objects that can be used as color attachments.
pub trait ToColorAttachment {
    /// The attachment that this object describes.
    spec fn color_attachment(&self) -> ColorAttachment<'_>;

    /// Builds the `ColorAttachment`.
    fn to_color_attachment(&self) -> (r: ColorAttachment<'_>)
        ensures
            r == self.color_attachment(),
    ;
}

impl ToColorAttachment for Texture2d {
    open spec fn color_attachment(&self) -> ColorAttachment<'_> {
        ColorAttachment::Texture2d(Mipmap { image: &self.0, level: 0 })
    }

    fn to_color_attachment(&self) -> (r: ColorAttachment<'_>) {
        ColorAttachment::Texture2d(Mipmap { image: &self.0, level: 0 })
    }
}


impl ToColorAttachment for Texture2dMultisample {
    open spec fn color_attachment(&self) -> ColorAttachment<'_> {
        ColorAttachment::Texture2dMultisample(Mipmap { image: &self.0, level: 0 })
    }

    fn to_color_attachment(&self) -> (r: ColorAttachment<'_>) {
        ColorAttachment::Texture2dMultisample(Mipmap { image: &self.0, level: 0 })
    }
}

impl ToColorAttachment for RenderBuffer {
    open spec fn color_attachment(&self) -> ColorAttachment<'_> {
        ColorAttachment::RenderBuffer(self)
    }

    fn to_color_attachment(&self) -> (r: ColorAttachment<'_>) {
        ColorAttachment::RenderBuffer(self)
    }
}

/// Objects that can be used as depth attachments.
pub trait ToDepthAttachment {
    /// The attachment that this object describes.
    spec fn depth_attachment(&self) -> DepthAttachment<'_>;

    /// Builds the `DepthAttachment`.
    fn to_depth_attachment(&self) -> (r: DepthAttachment<'_>)
        ensures
            r == self.depth_attachment(),
    ;
}

impl ToDepthAttachment for DepthTexture2d {
    open spec fn depth_attachment(&self) -> DepthAttachment<'_> {
        DepthAttachment::Texture2d(Mipmap { image: &self.0, level: 0 })
    }

    fn to_depth_attachment(&self) -> (r: DepthAttachment<'_>) {
        DepthAttachment::Texture2d(Mipmap { image: &self.0, level: 0 })
    }
}

impl ToDepthAttachment for DepthRenderBuffer {
    open spec fn depth_attachment(&self) -> DepthAttachment<'_> {
        DepthAttachment::RenderBuffer(self)
    }

    fn to_depth_attachment(&self) -> (r: DepthAttachment<'_>) {
        DepthAttachment::RenderBuffer(self)
    }
}

/// Objects that can be used as stencil attachments.
pub trait ToStencilAttachment {
    /// The attachment that this object describes.
    spec fn stencil_attachment(&self) -> StencilAttachment<'_>;

    /// Builds the `StencilAttachment`.
    fn to_stencil_attachment(&self) -> (r: StencilAttachment<'_>)
        ensures
            r == self.stencil_attachment(),
    ;
}

impl ToStencilAttachment for StencilTexture2d {
    open spec fn stencil_attachment(&self) -> StencilAttachment<'_> {
        StencilAttachment::Texture2d(Mipmap { image: &self.0, level: 0 })
    }

    fn to_stencil_attachment(&self) -> (r: StencilAttachment<'_>) {
        StencilAttachment::Texture2d(Mipmap { image: &self.0, level: 0 })
    }
}

impl ToStencilAttachment for StencilRenderBuffer {
    open spec fn stencil_attachment(&self) -> StencilAttachment<'_> {
        StencilAttachment::RenderBuffer(self)
    }

    fn to_stencil_attachment(&self) -> (r: StencilAttachment<'_>) {
        StencilAttachment::RenderBuffer(self)
    }
}

/// Objects that can be used as combined depth and stencil attachments.
pub trait ToDepthStencilAttachment {
    /// The attachment that this object describes.
    spec fn depth_stencil_attachment(&self) -> DepthStencilAttachment<'_>;

    /// Builds the `DepthStencilAttachment`.
    fn to_depth_stencil_attachment(&self) -> (r: DepthStencilAttachment<'_>)
        ensures
            r == self.depth_stencil_attachment(),
    ;
}

impl ToDepthStencilAttachment for DepthStencilTexture2d {
    open spec fn depth_stencil_attachment(&self) -> DepthStencilAttachment<'_> {
        DepthStencilAttachment::Texture2d(Mipmap { image: &self.0, level: 0 })
    }

    fn to_depth_stencil_attachment(&self) -> (r: DepthStencilAttachment<'_>) {
        DepthStencilAttachment::Texture2d(Mipmap { image: &self.0, level: 0 })
    }
}

impl ToDepthStencilAttachment for DepthStencilRenderBuffer {
    open spec fn depth_stencil_attachment(&self) -> DepthStencilAttachment<'_> {
        DepthStencilAttachment::RenderBuffer(self)
    }

    fn to_depth_stencil_attachment(&self) -> (r: DepthStencilAttachment<'_>) {
        DepthStencilAttachment::RenderBuffer(self)
    }
}

/// An attachment as the driver binds it.
#[derive(Clone, Copy, Debug, PartialEq, Eq, Structural)]
pub enum Attachment {
    /// A level and layer of a texture, with the bind point of its kind.
    Texture { id: u32, bind_point: u32, level: u32, layer: u32 },
    /// A render buffer, by its native name.
    RenderBuffer(u32),
}

/// An attachment resolved together with the size of the image behind it.
#[derive(Clone, Copy, Debug, PartialEq, Eq, Structural)]
pub struct Resolved {
    pub width: u32,
    pub height: u32,
    pub attachment: Attachment,
}

/// The role that an attachment plays in a render target.
#[derive(Clone, Copy, Debug, PartialEq, Eq, Structural)]
pub enum AttachmentRole {
    Color,
    Depth,
    Stencil,
    DepthStencil,
}

/// Why a render target could not be built.
#[derive(Clone, Copy, Debug, PartialEq, Eq, Structural)]
pub enum FramebufferError {
    /// The attachment is of a kind that render targets cannot bind yet.
    UnsupportedAttachment(AttachmentRole),
    /// The attachment does not have the size of the first color attachment.
    DimensionsMismatch(AttachmentRole),
    /// Combined depth and stencil attachments cannot be bound yet.
    DepthStencilNotSupported,
    /// A render target needs at least one color attachment.
    NoColorAttachment,
}

/// The size and native attachment of a texture level bound at `bind_point`.
pub open spec fn texture_resolution(m: Mipmap, bind_point: u32) -> Resolved {
    Resolved {
        width: m.image.width,
        height: m.image.height,
        attachment: Attachment::Texture { id: m.image.id, bind_point, level: m.level, layer: 0 },
    }
}

/// The size and native attachment of a render buffer image.
pub open spec fn render_buffer_resolution(image: Image) -> Resolved {
    Resolved { width: image.width, height: image.height, attachment: Attachment::RenderBuffer(image.id) }
}

/// What a color attachment resolves to; `None` for the kinds that cannot be bound yet.
pub open spec fn color_resolution(c: ColorAttachment) -> Option<Resolved> {
    match c {
        ColorAttachment::Texture2d(m) => Some(texture_resolution(m, TEXTURE_2D)),
        ColorAttachment::Texture2dMultisample(m) => Some(texture_resolution(m, TEXTURE_2D_MULTISAMPLE)),
        ColorAttachment::RenderBuffer(b) => Some(render_buffer_resolution(b.0)),
        _ => None,
    }
}

/// What a depth attachment resolves to; `None` for the kinds that cannot be bound yet.
pub open spec fn depth_resolution(d: DepthAttachment) -> Option<Resolved> {
    match d {
        DepthAttachment::Texture2d(m) => Some(texture_resolution(m, TEXTURE_2D)),
        DepthAttachment::RenderBuffer(b) => Some(render_buffer_resolution(b.0)),
        _ => None,
    }
}

/// What a stencil attachment resolves to; `None` for the kinds that cannot be bound yet.
pub open spec fn stencil_resolution(s: StencilAttachment) -> Option<Resolved> {
    match s {
        StencilAttachment::Texture2d(m) => Some(texture_resolution(m, TEXTURE_2D)),
        StencilAttachment::RenderBuffer(b) => Some(render_buffer_resolution(b.0)),
        _ => None,
    }
}

fn resolve_texture(m: Mipmap, bind_point: u32) -> (r: Resolved)
    ensures
        r == texture_resolution(m, bind_point),
{
    Resolved {
        width: m.image.width,
        height: m.image.height,
        attachment: Attachment::Texture { id: m.image.id, bind_point, level: m.level, layer: 0 },
    }
}

fn resolve_render_buffer(image: &Image) -> (r: Resolved)
    ensures
        r == render_buffer_resolution(*image),
{
    Resolved { width: image.width, height: image.height, attachment: Attachment::RenderBuffer(image.id) }
}

/// Resolves a color attachment, or reports that its kind cannot be bound yet.
pub fn resolve_color(c: ColorAttachment) -> (r: Result<Resolved, FramebufferError>)
    ensures
        match color_resolution(c) {
            Some(res) => r == Ok::<Resolved, FramebufferError>(res),
            None => r == Err::<Resolved, FramebufferError>(
                FramebufferError::UnsupportedAttachment(AttachmentRole::Color),
            ),
        },
{
    match c {
        ColorAttachment::Texture2d(m) => Ok(resolve_texture(m, TEXTURE_2D)),
        ColorAttachment::Texture2dMultisample(m) => Ok(resolve_texture(m, TEXTURE_2D_MULTISAMPLE)),
        ColorAttachment::RenderBuffer(b) => Ok(resolve_render_buffer(&b.0)),
        _ => Err(FramebufferError::UnsupportedAttachment(AttachmentRole::Color)),
    }
}

/// Resolves a depth attachment, or reports that its kind cannot be bound yet.
pub fn resolve_depth(d: DepthAttachment) -> (r: Result<Resolved, FramebufferError>)
    ensures
        match depth_resolution(d) {
            Some(res) => r == Ok::<Resolved, FramebufferError>(res),
            None => r == Err::<Resolved, FramebufferError>(
                FramebufferError::UnsupportedAttachment(AttachmentRole::Depth),
            ),
        },
{
    match d {
        DepthAttachment::Texture2d(m) => Ok(resolve_texture(m, TEXTURE_2D)),
        DepthAttachment::RenderBuffer(b) => Ok(resolve_render_buffer(&b.0)),
        _ => Err(FramebufferError::UnsupportedAttachment(AttachmentRole::Depth)),
    }
}

/// Resolves a stencil attachment, or reports that its kind cannot be bound yet.
pub fn resolve_stencil(s: StencilAttachment) -> (r: Result<Resolved, FramebufferError>)
    ensures
        match stencil_resolution(s) {
            Some(res) => r == Ok::<Resolved, FramebufferError>(res),
            None => r == Err::<Resolved, FramebufferError>(
                FramebufferError::UnsupportedAttachment(AttachmentRole::Stencil),
            ),
        },
{
    match s {
        StencilAttachment::Texture2d(m) => Ok(resolve_texture(m, TEXTURE_2D)),
        StencilAttachment::RenderBuffer(b) => Ok(resolve_render_buffer(&b.0)),
        _ => Err(FramebufferError::UnsupportedAttachment(AttachmentRole::Stencil)),
    }
}

/// The depth and stencil attachments of a render target.
#[derive(Clone, Copy, Debug, PartialEq, Eq, Structural)]
pub enum DepthStencilAttachments {
    /// Neither a depth nor a stencil attachment.
    Absent,
    DepthOnly(Attachment),
    StencilOnly(Attachment),
    DepthAndStencil(Attachment, Attachment),
}

/// All the attachments of a render target, color slots first.
#[derive(Debug)]
pub struct FramebufferAttachments {
    /// Each color attachment with the output slot that it is bound to.
    pub colors: Vec<(u32, Attachment)>,
    pub depth_stencil: DepthStencilAttachments,
}

/// How a depth and a stencil attachment combine.
pub open spec fn depth_stencil_of(depth: Option<Attachment>, stencil: Option<Attachment>) -> DepthStencilAttachments {
    match (depth, stencil) {
        (Some(d), Some(s)) => DepthStencilAttachments::DepthAndStencil(d, s),
        (Some(d), None) => DepthStencilAttachments::DepthOnly(d),
        (None, Some(s)) => DepthStencilAttachments::StencilOnly(s),
        (None, None) => DepthStencilAttachments::Absent,
    }
}

/// Classifies a depth and a stencil attachment into one `DepthStencilAttachments`.
pub fn classify_depth_stencil(depth: Option<Attachment>, stencil: Option<Attachment>) -> (r: DepthStencilAttachments)
    ensures
        r == depth_stencil_of(depth, stencil),
{
    match (depth, stencil) {
        (Some(d), Some(s)) => DepthStencilAttachments::DepthAndStencil(d, s),
        (Some(d), None) => DepthStencilAttachments::DepthOnly(d),
        (None, Some(s)) => DepthStencilAttachments::StencilOnly(s),
        (None, None) => DepthStencilAttachments::Absent,
    }
}

impl View for FramebufferAttachments {
    type V = (Seq<(u32, Attachment)>, DepthStencilAttachments);

    open spec fn view(&self) -> Self::V {
        (self.colors@, self.depth_stencil)
    }
}

/// The view of optional attachments.
pub open spec fn optional_view(a: Option<&FramebufferAttachments>) -> Option<(Seq<(u32, Attachment)>, DepthStencilAttachments)> {
    match a {
        Some(a) => Some(a@),
        None => None,
    }
}

impl FramebufferAttachments {
    /// A copy of these attachments.
    pub fn duplicate(&self) -> (r: FramebufferAttachments)
        ensures
            r@ == self@,
    {
        let mut colors: Vec<(u32, Attachment)> = Vec::new();
        let mut i: usize = 0;
        while i < self.colors.len()
            invariant
                i <= self.colors.len(),
                colors@ == self.colors@.subrange(0, i as int),
            decreases self.colors.len() - i,
        {
            colors.push(self.colors[i]);
            i += 1;
        }
        assert(colors@ == self.colors@.subrange(0, self.colors.len() as int));
        assert(self.colors@.subrange(0, self.colors.len() as int) =~= self.colors@);
        FramebufferAttachments { colors, depth_stencil: self.depth_stencil }
    }
}

} // verus!
