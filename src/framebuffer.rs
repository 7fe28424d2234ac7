//! Render targets made of textures and render buffers.
//!
//! A `SimpleFrameBuffer` has one color attachment, bound to output slot 0. A
//! `MultiOutputFrameBuffer` has named color attachments, whose slots are looked up in the
//! program of each draw.
use std::marker::PhantomData;

use crate::attachment::{
    classify_depth_stencil, color_resolution, optional_view, depth_resolution, depth_stencil_of, resolve_color,
    resolve_depth, resolve_stencil, stencil_resolution, Attachment, AttachmentRole,
    ColorAttachment, DepthAttachment, DepthStencilAttachment, DepthStencilAttachments,
    FramebufferAttachments, FramebufferError, Resolved, StencilAttachment, Texture2d, ToColorAttachment,
    ToDepthAttachment, ToDepthStencilAttachment, ToStencilAttachment,
};
use crate::blit::{blit_color_command, command_view, filter_enum, BlitCommand, BlitTarget, MagnifySamplerFilter};
use crate::context::Context;
use crate::gl_enums::{COLOR_BUFFER_BIT, TEXTURE_2D};
use crate::draw::{draw_check, validate_draw, ClearCommand, DrawCommand, DrawError, DrawParameters, Rect};
use crate::program::{frag_data_location, Program};
use crate::vertex::MultiVerticesSource;
use vstd::prelude::*;

verus! {

/// The depth precision reported for a depth attachment. The format of the attachment is not
/// inspected, so this is an estimate, not the precision of the actual buffer.
pub const DEPTH_BITS_ESTIMATE: u16 = 32;

/// The stencil precision reported for a stencil attachment. The format of the attachment is
/// not inspected, so this is an estimate, not the precision of the actual buffer.
pub const STENCIL_BITS_ESTIMATE: u16 = 8;

/// An extra attachment checked against the size of the color attachment.
pub open spec fn checked_size(r: Option<Resolved>, role: AttachmentRole, width: u32, height: u32) -> Result<
    Resolved,
    FramebufferError,
> {
    match r {
        None => Err(FramebufferError::UnsupportedAttachment(role)),
        Some(a) => if a.width == width && a.height == height {
            Ok(a)
        } else {
            Err(FramebufferError::DimensionsMismatch(role))
        },
    }
}

/// An optional extra attachment checked against the size of the color attachment.
pub open spec fn checked_optional(
    requested: bool,
    r: Option<Resolved>,
    role: AttachmentRole,
    width: u32,
    height: u32,
) -> Result<Option<Resolved>, FramebufferError> {
    if !requested {
        Ok(None)
    } else {
        match checked_size(r, role, width, height) {
            Ok(a) => Ok(Some(a)),
            Err(e) => Err(e),
        }
    }
}

/// What an optional depth attachment resolves to.
pub open spec fn depth_request(depth: Option<DepthAttachment>) -> Option<Resolved> {
    match depth {
        Some(d) => depth_resolution(d),
        None => None,
    }
}

/// What an optional stencil attachment resolves to.
pub open spec fn stencil_request(stencil: Option<StencilAttachment>) -> Option<Resolved> {
    match stencil {
        Some(s) => stencil_resolution(s),
        None => None,
    }
}

/// The attachment of an optional resolved attachment.
pub open spec fn attachment_of(r: Option<Resolved>) -> Option<Attachment> {
    match r {
        Some(a) => Some(a.attachment),
        None => None,
    }
}

/// The resolved color, depth and stencil attachments of a simple render target, or the first
/// reason why it cannot be built: a combined depth-stencil attachment, then the color
/// attachment, then the depth attachment, then the stencil attachment.
pub open spec fn simple_resolution(
    color: ColorAttachment,
    depth: Option<DepthAttachment>,
    stencil: Option<StencilAttachment>,
    with_depth_stencil: bool,
) -> Result<(Resolved, Option<Resolved>, Option<Resolved>), FramebufferError> {
    if with_depth_stencil {
        Err(FramebufferError::DepthStencilNotSupported)
    } else {
        match color_resolution(color) {
            None => Err(FramebufferError::UnsupportedAttachment(AttachmentRole::Color)),
            Some(c) => match checked_optional(
                depth is Some,
                depth_request(depth),
                AttachmentRole::Depth,
                c.width,
                c.height,
            ) {
                Err(e) => Err(e),
                Ok(d) => match checked_optional(
                    stencil is Some,
                    stencil_request(stencil),
                    AttachmentRole::Stencil,
                    c.width,
                    c.height,
                ) {
                    Err(e) => Err(e),
                    Ok(s) => Ok((c, d, s)),
                },
            },
        }
    }
}

/// The precision reported for an optional depth attachment.
pub open spec fn depth_bits_of(d: Option<Resolved>) -> Option<u16> {
    if d is Some {
        Some(DEPTH_BITS_ESTIMATE)
    } else {
        None
    }
}

/// The precision reported for an optional stencil attachment.
pub open spec fn stencil_bits_of(s: Option<Resolved>) -> Option<u16> {
    if s is Some {
        Some(STENCIL_BITS_ESTIMATE)
    } else {
        None
    }
}

/// A framebuffer which has only one color attachment.
///
/// It borrows the textures and render buffers that it draws to for `'a`.
pub struct SimpleFrameBuffer<'a> {
    context: Context,
    attachments: FramebufferAttachments,
    marker: PhantomData<&'a ()>,
    dimensions: (u32, u32),
    depth_buffer_bits: Option<u16>,
    stencil_buffer_bits: Option<u16>,
}

impl<'a> SimpleFrameBuffer<'a> {
    /// The context that the target draws with.
    pub closed spec fn context_spec(&self) -> Context {
        self.context
    }

    /// The width and height of every attachment.
    pub closed spec fn dimensions_spec(&self) -> (u32, u32) {
        self.dimensions
    }

    /// The color attachments with their slots.
    pub closed spec fn colors_spec(&self) -> Seq<(u32, Attachment)> {
        self.attachments.colors@
    }

    /// The depth and stencil attachments.
    pub closed spec fn depth_stencil_spec(&self) -> DepthStencilAttachments {
        self.attachments.depth_stencil
    }

    /// The reported depth precision, if there is a depth attachment.
    pub closed spec fn depth_bits_spec(&self) -> Option<u16> {
        self.depth_buffer_bits
    }

    /// The reported stencil precision, if there is a stencil attachment.
    pub closed spec fn stencil_bits_spec(&self) -> Option<u16> {
        self.stencil_buffer_bits
    }

    /// The invariant of a simple target: one color attachment, in slot 0, and a depth or a
    /// stencil precision reported exactly when there is such an attachment.
    pub closed spec fn wf(&self) -> bool {
        let ds = self.attachments.depth_stencil;
        &&& self.attachments.colors@.len() == 1
        &&& self.attachments.colors@[0].0 == 0
        &&& (self.depth_buffer_bits is Some <==> (ds is DepthOnly || ds is DepthAndStencil))
        &&& (self.stencil_buffer_bits is Some <==> (ds is StencilOnly || ds is DepthAndStencil))
    }

    /// The target holds the resolved attachments `c`, `d` and `s`, and draws with `context`.
    pub open spec fn built_from(
        &self,
        context: Context,
        c: Resolved,
        d: Option<Resolved>,
        s: Option<Resolved>,
    ) -> bool {
        &&& self.wf()
        &&& self.context_spec() == context
        &&& self.dimensions_spec() == (c.width, c.height)
        &&& self.colors_spec() == seq![(0u32, c.attachment)]
        &&& self.depth_stencil_spec() == depth_stencil_of(attachment_of(d), attachment_of(s))
        &&& self.depth_bits_spec() == depth_bits_of(d)
        &&& self.stencil_bits_spec() == stencil_bits_of(s)
    }

    /// `r` is what building a target from these attachments gives.
    pub open spec fn outcome(
        r: Result<SimpleFrameBuffer<'a>, FramebufferError>,
        context: Context,
        color: ColorAttachment,
        depth: Option<DepthAttachment>,
        stencil: Option<StencilAttachment>,
        with_depth_stencil: bool,
    ) -> bool {
        match simple_resolution(color, depth, stencil, with_depth_stencil) {
            Ok((c, d, s)) => r is Ok && r->Ok_0.built_from(context, c, d, s),
            Err(e) => r == Err::<SimpleFrameBuffer<'a>, FramebufferError>(e),
        }
    }

    /// Creates a `SimpleFrameBuffer` with a single color attachment and no depth
    /// nor stencil buffer.
    pub fn new<C: ToColorAttachment>(context: &Context, color: &'a C) -> (r: Result<
        SimpleFrameBuffer<'a>,
        FramebufferError,
    >)
        ensures
            Self::outcome(r, *context, color.color_attachment(), None, None, false),
            r is Ok ==> r->Ok_0.depth_bits_spec() is None && r->Ok_0.stencil_bits_spec() is None,
    {
        SimpleFrameBuffer::new_impl(context, color.to_color_attachment(), None, None, None)
    }

    /// Creates a `SimpleFrameBuffer` with a single color attachment and a depth
    /// buffer, but no stencil buffer.
    pub fn with_depth_buffer<C: ToColorAttachment, D: ToDepthAttachment>(
        context: &Context,
        color: &'a C,
        depth: &'a D,
    ) -> (r: Result<SimpleFrameBuffer<'a>, FramebufferError>)
        ensures
            Self::outcome(
                r,
                *context,
                color.color_attachment(),
                Some(depth.depth_attachment()),
                None,
                false,
            ),
    {
        SimpleFrameBuffer::new_impl(
            context,
            color.to_color_attachment(),
            Some(depth.to_depth_attachment()),
            None,
            None,
        )
    }

    /// Creates a `SimpleFrameBuffer` with a single color attachment, a depth
    /// buffer, and a stencil buffer.
    pub fn with_depth_and_stencil_buffer<
        C: ToColorAttachment,
        D: ToDepthAttachment,
        S: ToStencilAttachment,
    >(context: &Context, color: &'a C, depth: &'a D, stencil: &'a S) -> (r: Result<
        SimpleFrameBuffer<'a>,
        FramebufferError,
    >)
        ensures
            Self::outcome(
                r,
                *context,
                color.color_attachment(),
                Some(depth.depth_attachment()),
                Some(stencil.stencil_attachment()),
                false,
            ),
    {
        SimpleFrameBuffer::new_impl(
            context,
            color.to_color_attachment(),
            Some(depth.to_depth_attachment()),
            Some(stencil.to_stencil_attachment()),
            None,
        )
    }

    /// Creates a `SimpleFrameBuffer` with a single color attachment and a stencil
    /// buffer, but no depth buffer.
    pub fn with_stencil_buffer<C: ToColorAttachment, S: ToStencilAttachment>(
        context: &Context,
        color: &'a C,
        stencil: &'a S,
    ) -> (r: Result<SimpleFrameBuffer<'a>, FramebufferError>)
        ensures
            Self::outcome(
                r,
                *context,
                color.color_attachment(),
                None,
                Some(stencil.stencil_attachment()),
                false,
            ),
    {
        SimpleFrameBuffer::new_impl(
            context,
            color.to_color_attachment(),
            None,
            Some(stencil.to_stencil_attachment()),
            None,
        )
    }

    /// Would create a `SimpleFrameBuffer` with a single color attachment and a combined
    /// depth-stencil buffer. Such attachments cannot be bound yet, so this always fails with
    /// `DepthStencilNotSupported`.
    pub fn with_depth_stencil_buffer<C: ToColorAttachment, D: ToDepthStencilAttachment>(
        context: &Context,
        color: &'a C,
        depthstencil: &'a D,
    ) -> (r: Result<SimpleFrameBuffer<'a>, FramebufferError>)
        ensures
            r == Err::<SimpleFrameBuffer<'a>, FramebufferError>(
                FramebufferError::DepthStencilNotSupported,
            ),
    {
        SimpleFrameBuffer::new_impl(
            context,
            color.to_color_attachment(),
            None,
            None,
            Some(depthstencil.to_depth_stencil_attachment()),
        )
    }

    fn new_impl(
        context: &Context,
        color: ColorAttachment,
        depth: Option<DepthAttachment>,
        stencil: Option<StencilAttachment>,
        depthstencil: Option<DepthStencilAttachment>,
    ) -> (r: Result<SimpleFrameBuffer<'a>, FramebufferError>)
        ensures
            Self::outcome(r, *context, color, depth, stencil, depthstencil is Some),
    {
        if depthstencil.is_some() {
            return Err(FramebufferError::DepthStencilNotSupported);
        }
        let c = match resolve_color(color) {
            Ok(c) => c,
            Err(e) => return Err(e),
        };

        let depth = match depth {
            Some(d) => match resolve_depth(d) {
                Ok(a) => {
                    if a.width != c.width || a.height != c.height {
                        return Err(FramebufferError::DimensionsMismatch(AttachmentRole::Depth));
                    }
                    Some(a)
                },
                Err(e) => return Err(e),
            },
            None => None,
        };

        let stencil = match stencil {
            Some(s) => match resolve_stencil(s) {
                Ok(a) => {
                    if a.width != c.width || a.height != c.height {
                        return Err(FramebufferError::DimensionsMismatch(AttachmentRole::Stencil));
                    }
                    Some(a)
                },
                Err(e) => return Err(e),
            },
            None => None,
        };

        let depth_attachment = match depth {
            Some(a) => Some(a.attachment),
            None => None,
        };
        let stencil_attachment = match stencil {
            Some(a) => Some(a.attachment),
            None => None,
        };
        let depth_buffer_bits = if depth.is_some() {
            Some(DEPTH_BITS_ESTIMATE)
        } else {
            None
        };
        let stencil_buffer_bits = if stencil.is_some() {
            Some(STENCIL_BITS_ESTIMATE)
        } else {
            None
        };

        let fb = SimpleFrameBuffer {
            context: *context,
            attachments: FramebufferAttachments {
                colors: vec![(0u32, c.attachment)],
                depth_stencil: classify_depth_stencil(depth_attachment, stencil_attachment),
            },
            marker: PhantomData,
            dimensions: (c.width, c.height),
            depth_buffer_bits,
            stencil_buffer_bits,
        };
        assert(fb.attachments.colors@ =~= seq![(0u32, c.attachment)]);
        Ok(fb)
    }

    /// The width and height of the target, in pixels.
    pub fn get_dimensions(&self) -> (r: (u32, u32))
        ensures
            r == self.dimensions_spec(),
    {
        self.dimensions
    }

    /// The precision of the depth buffer, if the target has one.
    pub fn get_depth_buffer_bits(&self) -> (r: Option<u16>)
        ensures
            r == self.depth_bits_spec(),
    {
        self.depth_buffer_bits
    }

    /// The precision of the stencil buffer, if the target has one.
    pub fn get_stencil_buffer_bits(&self) -> (r: Option<u16>)
        ensures
            r == self.stencil_bits_spec(),
    {
        self.stencil_buffer_bits
    }

    /// Whether the target has a depth buffer.
    pub fn has_depth_buffer(&self) -> (r: bool)
        ensures
            r == self.depth_bits_spec() is Some,
    {
        self.depth_buffer_bits.is_some()
    }

    /// Checks a draw into this target and, if it may go ahead, returns what the driver needs
    /// for it. The target is left as it was either way.
    pub fn draw<'v, V: MultiVerticesSource<'v>>(
        &mut self,
        vb: V,
        program: &Program,
        draw_parameters: &DrawParameters,
    ) -> (r: Result<DrawCommand<'v>, DrawError>)
        ensures
            *final(self) == *old(self),
            match draw_check(
                old(self).depth_bits_spec() is Some,
                old(self).context_spec().max_viewport_dims,
                *draw_parameters,
            ) {
                Err(e) => r == Err::<DrawCommand<'v>, DrawError>(e),
                Ok(_) => r matches Ok(cmd) && cmd.dimensions == old(self).dimensions_spec()
                    && cmd.attachments@ == (old(self).colors_spec(), old(self).depth_stencil_spec())
                    && cmd.vertex_sources@ == vb.sources() && cmd.program == program.id
                    && cmd.parameters == *draw_parameters,
            },
    {
        if let Err(e) = validate_draw(
            self.depth_buffer_bits.is_some(),
            self.context.max_viewport_dims,
            draw_parameters,
        ) {
            return Err(e);
        }
        let vertex_sources = vb.iter();
        Ok(
            DrawCommand {
                dimensions: self.dimensions,
                attachments: self.attachments.duplicate(),
                vertex_sources,
                program: program.id,
                parameters: *draw_parameters,
            },
        )
    }

    /// The clear of this target with the given values.
    pub fn clear(&self, color: Option<[u32; 4]>, depth: Option<u32>, stencil: Option<i32>) -> (r: ClearCommand)
        ensures
            r.attachments@ == (self.colors_spec(), self.depth_stencil_spec()),
            r.color == color,
            r.depth == depth,
            r.stencil == stencil,
    {
        ClearCommand { attachments: self.attachments.duplicate(), color, depth, stencil }
    }

    /// The attachments of the target.
    pub fn get_attachments(&self) -> (r: &FramebufferAttachments)
        ensures
            r.colors@ == self.colors_spec(),
            r.depth_stencil == self.depth_stencil_spec(),
    {
        &self.attachments
    }
}

/// The native attachment of a color texture of a multi-output target.
pub open spec fn output_attachment(id: u32) -> Attachment {
    Attachment::Texture { id, bind_point: TEXTURE_2D, level: 0, layer: 0 }
}

/// Whether every color texture of `textures` has the size of the first.
pub open spec fn same_size(textures: Seq<(&str, &Texture2d)>) -> bool {
    forall|i: int|
        0 <= i < textures.len() ==> (#[trigger] textures[i]).1.0.width == textures[0].1.0.width
            && textures[i].1.0.height == textures[0].1.0.height
}

/// The resolved depth attachment of a multi-output target whose color textures are
/// `textures`, or the first reason why the target cannot be built: no color texture, then
/// textures of different sizes, then the depth attachment.
pub open spec fn multi_resolution(textures: Seq<(&str, &Texture2d)>, depth: Option<DepthAttachment>) -> Result<
    Option<Resolved>,
    FramebufferError,
> {
    if textures.len() == 0 {
        Err(FramebufferError::NoColorAttachment)
    } else if !same_size(textures) {
        Err(FramebufferError::DimensionsMismatch(AttachmentRole::Color))
    } else {
        checked_optional(
            depth is Some,
            depth_request(depth),
            AttachmentRole::Depth,
            textures[0].1.0.width,
            textures[0].1.0.height,
        )
    }
}

/// Whether the program has an output for each named texture.
pub open spec fn all_outputs_found(outputs: Seq<(String, u32)>, named: Seq<(String, u32)>) -> bool {
    forall|i: int| 0 <= i < named.len() ==> (#[trigger] frag_data_location(outputs, named[i].0@)) is Some
}

/// Each named texture bound to the slot of its output, in the order of the textures.
pub open spec fn resolved_outputs(outputs: Seq<(String, u32)>, named: Seq<(String, u32)>) -> Seq<
    (u32, Attachment),
> {
    named.map_values(
        |p: (String, u32)| (frag_data_location(outputs, p.0@)->Some_0, output_attachment(p.1)),
    )
}

/// Each named texture bound to the slot given by its position.
pub open spec fn positional_outputs(named: Seq<(String, u32)>) -> Seq<(u32, Attachment)> {
    Seq::new(named.len(), |i: int| (i as u32, output_attachment(named[i].1)))
}

/// The depth-stencil attachments of a multi-output target.
pub open spec fn depth_only_of(depth: Option<Attachment>) -> DepthStencilAttachments {
    match depth {
        Some(d) => DepthStencilAttachments::DepthOnly(d),
        None => DepthStencilAttachments::Absent,
    }
}

/// `r` is what resolving the named textures against the program's outputs gives: the
/// attachments in slot form, or the first name that the program lacks.
pub open spec fn slot_resolution_outcome(
    r: Result<FramebufferAttachments, DrawError>,
    outputs: Seq<(String, u32)>,
    named: Seq<(String, u32)>,
    depth: Option<Attachment>,
) -> bool {
    if all_outputs_found(outputs, named) {
        r matches Ok(a) && a@ == (resolved_outputs(outputs, named), depth_only_of(depth))
    } else {
        r matches Err(e) && exists|i: int|
            0 <= i < named.len() && (#[trigger] frag_data_location(outputs, named[i].0@)) is None
                && (forall|j: int|
                0 <= j < i ==> (#[trigger] frag_data_location(outputs, named[j].0@)) is Some)
                && e == DrawError::FragmentOutputNotFound(named[i].0)
    }
}

/// A framebuffer whose color outputs are named; each draw binds them to the slots that its
/// program gives those names.
///
/// It borrows the textures that it draws to for `'a`.
pub struct MultiOutputFrameBuffer<'a> {
    context: Context,
    marker: PhantomData<&'a ()>,
    dimensions: (u32, u32),
    color_attachments: Vec<(String, u32)>,
    depth_attachment: Option<Attachment>,
    depth_buffer_bits: Option<u16>,
}

impl<'a> MultiOutputFrameBuffer<'a> {
    /// The context that the target draws with.
    pub closed spec fn context_spec(&self) -> Context {
        self.context
    }

    /// The width and height of every attachment.
    pub closed spec fn dimensions_spec(&self) -> (u32, u32) {
        self.dimensions
    }

    /// Each color output name with the native name of its texture.
    pub closed spec fn named_spec(&self) -> Seq<(String, u32)> {
        self.color_attachments@
    }

    /// The depth attachment.
    pub closed spec fn depth_spec(&self) -> Option<Attachment> {
        self.depth_attachment
    }

    /// The reported depth precision, if there is a depth attachment.
    pub closed spec fn depth_bits_spec(&self) -> Option<u16> {
        self.depth_buffer_bits
    }

    /// The invariant of a multi-output target: a depth precision is reported exactly when there
    /// is a depth attachment.
    pub closed spec fn wf(&self) -> bool {
        self.depth_buffer_bits is Some <==> self.depth_attachment is Some
    }

    /// The target holds the named textures of `textures` and the resolved depth attachment
    /// `d`, and draws with `context`.
    pub open spec fn built_from(
        &self,
        context: Context,
        textures: Seq<(&str, &Texture2d)>,
        d: Option<Resolved>,
    ) -> bool {
        &&& self.wf()
        &&& self.context_spec() == context
        &&& self.dimensions_spec() == (textures[0].1.0.width, textures[0].1.0.height)
        &&& self.named_spec().len() == textures.len()
        &&& forall|i: int|
            0 <= i < textures.len() ==> (#[trigger] self.named_spec()[i]).0@ == textures[i].0@
                && self.named_spec()[i].1 == textures[i].1.0.id
        &&& self.depth_spec() == attachment_of(d)
        &&& self.depth_bits_spec() == depth_bits_of(d)
    }

    /// `r` is what building a target from these attachments gives.
    pub open spec fn outcome(
        r: Result<MultiOutputFrameBuffer<'a>, FramebufferError>,
        context: Context,
        textures: Seq<(&str, &Texture2d)>,
        depth: Option<DepthAttachment>,
    ) -> bool {
        match multi_resolution(textures, depth) {
            Ok(d) => r is Ok && r->Ok_0.built_from(context, textures, d),
            Err(e) => r == Err::<MultiOutputFrameBuffer<'a>, FramebufferError>(e),
        }
    }

    /// Creates a `MultiOutputFrameBuffer` from named color textures, which must all have the
    /// same size.
    pub fn new(context: &Context, color_attachments: &[(&str, &'a Texture2d)]) -> (r: Result<
        MultiOutputFrameBuffer<'a>,
        FramebufferError,
    >)
        ensures
            Self::outcome(r, *context, color_attachments@, None),
    {
        MultiOutputFrameBuffer::new_impl(context, color_attachments, None)
    }

    /// Creates a `MultiOutputFrameBuffer` with a depth buffer.
    pub fn with_depth_buffer<D: ToDepthAttachment>(
        context: &Context,
        color_attachments: &[(&str, &'a Texture2d)],
        depth: &'a D,
    ) -> (r: Result<MultiOutputFrameBuffer<'a>, FramebufferError>)
        ensures
            Self::outcome(r, *context, color_attachments@, Some(depth.depth_attachment())),
    {
        MultiOutputFrameBuffer::new_impl(context, color_attachments, Some(depth.to_depth_attachment()))
    }

    fn new_impl(
        context: &Context,
        color_attachments: &[(&str, &'a Texture2d)],
        depth: Option<DepthAttachment>,
    ) -> (r: Result<MultiOutputFrameBuffer<'a>, FramebufferError>)
        ensures
            Self::outcome(r, *context, color_attachments@, depth),
    {
        let ghost textures = color_attachments@;
        let mut attachments: Vec<(String, u32)> = Vec::new();
        let mut dimensions: Option<(u32, u32)> = None;
        let mut i: usize = 0;
        while i < color_attachments.len()
            invariant
                textures == color_attachments@,
                i <= textures.len(),
                attachments@.len() == i,
                forall|j: int|
                    0 <= j < i ==> (#[trigger] attachments@[j]).0@ == textures[j].0@
                        && attachments@[j].1 == textures[j].1.0.id,
                i == 0 ==> dimensions is None,
                i > 0 ==> dimensions == Some((textures[0].1.0.width, textures[0].1.0.height)),
                forall|j: int|
                    0 <= j < i ==> (#[trigger] textures[j]).1.0.width == textures[0].1.0.width
                        && textures[j].1.0.height == textures[0].1.0.height,
            decreases textures.len() - i,
        {
            let (name, texture) = color_attachments[i];
            let tex_dims = (texture.0.width, texture.0.height);
            if let Some(d) = dimensions {
                if d.0 != tex_dims.0 || d.1 != tex_dims.1 {
                    assert(!same_size(textures)) by {
                        assert(textures[i as int].1.0.width != textures[0].1.0.width
                            || textures[i as int].1.0.height != textures[0].1.0.height);
                    }
                    return Err(FramebufferError::DimensionsMismatch(AttachmentRole::Color));
                }
            }
            dimensions = Some(tex_dims);
            attachments.push((name.to_owned(), texture.0.id));
            i += 1;
        }

        let dimensions = match dimensions {
            None => return Err(FramebufferError::NoColorAttachment),
            Some(d) => d,
        };
        assert(same_size(textures));

        let depth = match depth {
            Some(d) => match resolve_depth(d) {
                Ok(a) => {
                    if a.width != dimensions.0 || a.height != dimensions.1 {
                        return Err(FramebufferError::DimensionsMismatch(AttachmentRole::Depth));
                    }
                    Some(a)
                },
                Err(e) => return Err(e),
            },
            None => None,
        };
        let (depth_attachment, depth_buffer_bits) = match depth {
            Some(a) => (Some(a.attachment), Some(DEPTH_BITS_ESTIMATE)),
            None => (None, None),
        };

        Ok(
            MultiOutputFrameBuffer {
                context: *context,
                marker: PhantomData,
                dimensions,
                color_attachments: attachments,
                depth_attachment,
                depth_buffer_bits,
            },
        )
    }

    fn depth_stencil(&self) -> (r: DepthStencilAttachments)
        ensures
            r == depth_only_of(self.depth_spec()),
    {
        match self.depth_attachment {
            Some(d) => DepthStencilAttachments::DepthOnly(d),
            None => DepthStencilAttachments::Absent,
        }
    }

    /// Binds each named texture to the slot of its output in `program`. Fails on the first
    /// name that the program does not have.
    pub fn build_attachments(&self, program: &Program) -> (r: Result<FramebufferAttachments, DrawError>)
        ensures
            slot_resolution_outcome(r, program.outputs@, self.named_spec(), self.depth_spec()),
    {
        let ghost named = self.color_attachments@;
        let mut colors: Vec<(u32, Attachment)> = Vec::new();
        let mut i: usize = 0;
        while i < self.color_attachments.len()
            invariant
                named == self.color_attachments@,
                i <= named.len(),
                colors@ == resolved_outputs(program.outputs@, named).subrange(0, i as int),
                forall|j: int|
                    0 <= j < i ==> (#[trigger] frag_data_location(program.outputs@, named[j].0@)) is Some,
            decreases named.len() - i,
        {
            let location = match program.get_frag_data_location(&self.color_attachments[i].0) {
                Some(l) => l,
                None => {
                    let e = DrawError::FragmentOutputNotFound(self.color_attachments[i].0.clone());
                    assert(!all_outputs_found(program.outputs@, named));
                    return Err(e);
                },
            };
            let id = self.color_attachments[i].1;
            colors.push((location, Attachment::Texture { id, bind_point: TEXTURE_2D, level: 0, layer: 0 }));
            assert(colors@ =~= resolved_outputs(program.outputs@, named).subrange(0, i + 1));
            i += 1;
        }
        assert(colors@ =~= resolved_outputs(program.outputs@, named));
        Ok(FramebufferAttachments { colors, depth_stencil: self.depth_stencil() })
    }

    /// Binds each named texture to the slot given by its position, whatever the program.
    pub fn build_attachments_any(&self) -> (r: FramebufferAttachments)
        ensures
            r@ == (positional_outputs(self.named_spec()), depth_only_of(self.depth_spec())),
    {
        let ghost named = self.color_attachments@;
        let mut colors: Vec<(u32, Attachment)> = Vec::new();
        let mut i: usize = 0;
        while i < self.color_attachments.len()
            invariant
                named == self.color_attachments@,
                i <= named.len(),
                colors@ == positional_outputs(named).subrange(0, i as int),
            decreases named.len() - i,
        {
            let id = self.color_attachments[i].1;
            colors.push((i as u32, Attachment::Texture { id, bind_point: TEXTURE_2D, level: 0, layer: 0 }));
            assert(colors@ =~= positional_outputs(named).subrange(0, i + 1));
            i += 1;
        }
        assert(colors@ =~= positional_outputs(named));
        FramebufferAttachments { colors, depth_stencil: self.depth_stencil() }
    }

    /// The clear of this target with the given values. Each named texture is cleared, bound to
    /// the slot given by its position.
    pub fn clear(&self, color: Option<[u32; 4]>, depth: Option<u32>, stencil: Option<i32>) -> (r: ClearCommand)
        ensures
            r.attachments@ == (positional_outputs(self.named_spec()), depth_only_of(self.depth_spec())),
            r.color == color,
            r.depth == depth,
            r.stencil == stencil,
    {
        ClearCommand { attachments: self.build_attachments_any(), color, depth, stencil }
    }

    /// The width and height of the target, in pixels.
    pub fn get_dimensions(&self) -> (r: (u32, u32))
        ensures
            r == self.dimensions_spec(),
    {
        self.dimensions
    }

    /// The precision of the depth buffer, if the target has one.
    pub fn get_depth_buffer_bits(&self) -> (r: Option<u16>)
        ensures
            r == self.depth_bits_spec(),
    {
        self.depth_buffer_bits
    }

    /// The precision of the stencil buffer: such a target has none.
    pub fn get_stencil_buffer_bits(&self) -> (r: Option<u16>)
        ensures
            r is None,
    {
        None
    }

    /// Whether the target has a depth buffer.
    pub fn has_depth_buffer(&self) -> (r: bool)
        ensures
            r == self.depth_bits_spec() is Some,
    {
        self.depth_buffer_bits.is_some()
    }

    /// Checks a draw into this target and, if it may go ahead, binds each named texture to the
    /// slot of its output in `program` and returns what the driver needs for the draw. The
    /// target is left as it was either way.
    pub fn draw<'v, V: MultiVerticesSource<'v>>(
        &mut self,
        vb: V,
        program: &Program,
        draw_parameters: &DrawParameters,
    ) -> (r: Result<DrawCommand<'v>, DrawError>)
        ensures
            *final(self) == *old(self),
            match draw_check(
                old(self).depth_bits_spec() is Some,
                old(self).context_spec().max_viewport_dims,
                *draw_parameters,
            ) {
                Err(e) => r == Err::<DrawCommand<'v>, DrawError>(e),
                Ok(_) => if all_outputs_found(program.outputs@, old(self).named_spec()) {
                    r matches Ok(cmd) && cmd.dimensions == old(self).dimensions_spec()
                        && cmd.attachments@ == (
                        resolved_outputs(program.outputs@, old(self).named_spec()),
                        depth_only_of(old(self).depth_spec()),
                    ) && cmd.vertex_sources@ == vb.sources() && cmd.program == program.id
                        && cmd.parameters == *draw_parameters
                } else {
                    r matches Err(e) && exists|i: int|
                        0 <= i < old(self).named_spec().len() && (#[trigger] frag_data_location(
                            program.outputs@,
                            old(self).named_spec()[i].0@,
                        )) is None && (forall|j: int|
                            0 <= j < i ==> (#[trigger] frag_data_location(
                                program.outputs@,
                                old(self).named_spec()[j].0@,
                            )) is Some) && e == DrawError::FragmentOutputNotFound(
                            old(self).named_spec()[i].0,
                        )
                },
            },
    {
        if let Err(e) = validate_draw(
            self.depth_buffer_bits.is_some(),
            self.context.max_viewport_dims,
            draw_parameters,
        ) {
            return Err(e);
        }
        let attachments = match self.build_attachments(program) {
            Ok(a) => a,
            Err(e) => return Err(e),
        };
        let vertex_sources = vb.iter();
        Ok(
            DrawCommand {
                dimensions: self.dimensions,
                attachments,
                vertex_sources,
                program: program.id,
                parameters: *draw_parameters,
            },
        )
    }
}

/// A target of a blit, or the source of one.
#[derive(Clone, Copy)]
pub enum BlitSurface<'s, 'a> {
    /// The on-screen target.
    Frame,
    Simple(&'s SimpleFrameBuffer<'a>),
    MultiOutput(&'s MultiOutputFrameBuffer<'a>),
}

/// The attachments that a blit reads or writes on a surface; `None` for the on-screen target.
/// The textures of a multi-output target are taken in the order of their names.
pub open spec fn blit_view(s: BlitSurface) -> Option<(Seq<(u32, Attachment)>, DepthStencilAttachments)> {
    match s {
        BlitSurface::Frame => None,
        BlitSurface::Simple(fb) => Some((fb.colors_spec(), fb.depth_stencil_spec())),
        BlitSurface::MultiOutput(fb) => Some(
            (positional_outputs(fb.named_spec()), depth_only_of(fb.depth_spec())),
        ),
    }
}

impl<'s, 'a> BlitSurface<'s, 'a> {
    /// The attachments that a blit reads or writes on this surface.
    pub fn blit_attachments(&self) -> (r: Option<FramebufferAttachments>)
        ensures
            command_view(r) == blit_view(*self),
    {
        match self {
            BlitSurface::Frame => None,
            BlitSurface::Simple(fb) => Some(fb.get_attachments().duplicate()),
            BlitSurface::MultiOutput(fb) => Some(fb.build_attachments_any()),
        }
    }
}

/// `r` copies the color buffers of `source_rect` on `source` to `target_rect` on `target`,
/// scaled with `filter`.
pub open spec fn is_color_blit(
    r: BlitCommand,
    source: BlitSurface,
    source_rect: Rect,
    target: BlitSurface,
    target_rect: BlitTarget,
    filter: MagnifySamplerFilter,
) -> bool {
    &&& command_view(r.source) == blit_view(source)
    &&& command_view(r.target) == blit_view(target)
    &&& r.mask == COLOR_BUFFER_BIT
    &&& r.source_rect == source_rect
    &&& r.target_rect == target_rect
    &&& r.filter == filter_enum(filter)
}

/// The blit of the color buffers of `source` into `target`; the two rectangles need not have
/// the same size.
pub fn blit_surfaces(
    source: &BlitSurface,
    source_rect: &Rect,
    target: &BlitSurface,
    target_rect: &BlitTarget,
    filter: MagnifySamplerFilter,
) -> (r: BlitCommand)
    ensures
        is_color_blit(r, *source, *source_rect, *target, *target_rect, filter),
{
    let s = source.blit_attachments();
    let t = target.blit_attachments();
    let s_ref = match &s {
        Some(a) => Some(a),
        None => None,
    };
    let t_ref = match &t {
        Some(a) => Some(a),
        None => None,
    };
    blit_color_command(s_ref, t_ref, source_rect, target_rect, filter)
}

impl<'a> SimpleFrameBuffer<'a> {
    /// Copies the color of `source_rect` on this target to `target_rect` on `target`.
    pub fn blit_color(
        &self,
        source_rect: &Rect,
        target: &BlitSurface,
        target_rect: &BlitTarget,
        filter: MagnifySamplerFilter,
    ) -> (r: BlitCommand)
        ensures
            is_color_blit(r, BlitSurface::Simple(self), *source_rect, *target, *target_rect, filter),
    {
        blit_surfaces(&BlitSurface::Simple(self), source_rect, target, target_rect, filter)
    }

    /// Copies the color of `source_rect` on the screen to `target_rect` on this target.
    pub fn blit_from_frame(&self, source_rect: &Rect, target_rect: &BlitTarget, filter: MagnifySamplerFilter) -> (r:
        BlitCommand)
        ensures
            is_color_blit(r, BlitSurface::Frame, *source_rect, BlitSurface::Simple(self), *target_rect, filter),
    {
        blit_surfaces(&BlitSurface::Frame, source_rect, &BlitSurface::Simple(self), target_rect, filter)
    }

    /// Copies the color of `source_rect` on `source` to `target_rect` on this target.
    pub fn blit_from_simple_framebuffer(
        &self,
        source: &SimpleFrameBuffer,
        source_rect: &Rect,
        target_rect: &BlitTarget,
        filter: MagnifySamplerFilter,
    ) -> (r: BlitCommand)
        ensures
            is_color_blit(r, BlitSurface::Simple(source), *source_rect, BlitSurface::Simple(self), *target_rect, filter),
    {
        blit_surfaces(&BlitSurface::Simple(source), source_rect, &BlitSurface::Simple(self), target_rect, filter)
    }

    /// Copies the color of `source_rect` on `source` to `target_rect` on this target.
    pub fn blit_from_multioutput_framebuffer(
        &self,
        source: &MultiOutputFrameBuffer,
        source_rect: &Rect,
        target_rect: &BlitTarget,
        filter: MagnifySamplerFilter,
    ) -> (r: BlitCommand)
        ensures
            is_color_blit(r, BlitSurface::MultiOutput(source), *source_rect, BlitSurface::Simple(self), *target_rect, filter),
    {
        blit_surfaces(&BlitSurface::MultiOutput(source), source_rect, &BlitSurface::Simple(self), target_rect, filter)
    }
}

impl<'a> MultiOutputFrameBuffer<'a> {
    /// Copies the color of `source_rect` on this target to `target_rect` on `target`.
    pub fn blit_color(
        &self,
        source_rect: &Rect,
        target: &BlitSurface,
        target_rect: &BlitTarget,
        filter: MagnifySamplerFilter,
    ) -> (r: BlitCommand)
        ensures
            is_color_blit(r, BlitSurface::MultiOutput(self), *source_rect, *target, *target_rect, filter),
    {
        blit_surfaces(&BlitSurface::MultiOutput(self), source_rect, target, target_rect, filter)
    }

    /// Copies the color of `source_rect` on the screen to `target_rect` on this target.
    pub fn blit_from_frame(&self, source_rect: &Rect, target_rect: &BlitTarget, filter: MagnifySamplerFilter) -> (r:
        BlitCommand)
        ensures
            is_color_blit(r, BlitSurface::Frame, *source_rect, BlitSurface::MultiOutput(self), *target_rect, filter),
    {
        blit_surfaces(&BlitSurface::Frame, source_rect, &BlitSurface::MultiOutput(self), target_rect, filter)
    }

    /// Copies the color of `source_rect` on `source` to `target_rect` on this target.
    pub fn blit_from_simple_framebuffer(
        &self,
        source: &SimpleFrameBuffer,
        source_rect: &Rect,
        target_rect: &BlitTarget,
        filter: MagnifySamplerFilter,
    ) -> (r: BlitCommand)
        ensures
            is_color_blit(r, BlitSurface::Simple(source), *source_rect, BlitSurface::MultiOutput(self), *target_rect, filter),
    {
        blit_surfaces(&BlitSurface::Simple(source), source_rect, &BlitSurface::MultiOutput(self), target_rect, filter)
    }

    /// Copies the color of `source_rect` on `source` to `target_rect` on this target.
    pub fn blit_from_multioutput_framebuffer(
        &self,
        source: &MultiOutputFrameBuffer,
        source_rect: &Rect,
        target_rect: &BlitTarget,
        filter: MagnifySamplerFilter,
    ) -> (r: BlitCommand)
        ensures
            is_color_blit(r, BlitSurface::MultiOutput(source), *source_rect, BlitSurface::MultiOutput(self), *target_rect, filter),
    {
        blit_surfaces(&BlitSurface::MultiOutput(source), source_rect, &BlitSurface::MultiOutput(self), target_rect, filter)
    }
}

/// A depth attachment whose size differs from the color attachment's makes the construction of
/// a simple target fail with a dimension mismatch on the depth attachment, whatever the stencil
/// attachment.
pub proof fn lemma_depth_size_mismatch_fails(
    color: ColorAttachment,
    depth: DepthAttachment,
    stencil: Option<StencilAttachment>,
)
    requires
        color_resolution(color) is Some,
        depth_resolution(depth) is Some,
        depth_resolution(depth)->Some_0.width != color_resolution(color)->Some_0.width
            || depth_resolution(depth)->Some_0.height != color_resolution(color)->Some_0.height,
    ensures
        simple_resolution(color, Some(depth), stencil, false) == Err::<
            (Resolved, Option<Resolved>, Option<Resolved>),
            FramebufferError,
        >(FramebufferError::DimensionsMismatch(AttachmentRole::Depth)),
{
}

/// A depth attachment whose size differs from the color textures' makes the construction of a
/// multi-output target fail with a dimension mismatch on the depth attachment.
pub proof fn lemma_multi_depth_size_mismatch_fails(textures: Seq<(&str, &Texture2d)>, depth: DepthAttachment)
    requires
        textures.len() > 0,
        same_size(textures),
        depth_resolution(depth) is Some,
        depth_resolution(depth)->Some_0.width != textures[0].1.0.width
            || depth_resolution(depth)->Some_0.height != textures[0].1.0.height,
    ensures
        multi_resolution(textures, Some(depth)) == Err::<Option<Resolved>, FramebufferError>(
            FramebufferError::DimensionsMismatch(AttachmentRole::Depth),
        ),
{
}

proof fn lemma_resolved_subset(outputs: Seq<(String, u32)>, a: Seq<(String, u32)>, b: Seq<(String, u32)>)
    requires
        a.to_set() == b.to_set(),
    ensures
        resolved_outputs(outputs, a).to_set().subset_of(resolved_outputs(outputs, b).to_set()),
{
    assert forall|x: (u32, Attachment)| resolved_outputs(outputs, a).to_set().contains(x) implies resolved_outputs(
        outputs,
        b,
    ).to_set().contains(x) by {
        let i = choose|i: int| 0 <= i < a.len() && resolved_outputs(outputs, a)[i] == x;
        assert(a.to_set().contains(a[i]));
        let j = choose|j: int| 0 <= j < b.len() && b[j] == a[i];
        assert(resolved_outputs(outputs, b)[j] == x);
    }
}

/// The slots that the named textures of a multi-output target are bound to do not depend on
/// the order in which the textures were declared: two declarations of the same names and
/// textures resolve to the same pairs of slot and attachment.
pub proof fn lemma_resolution_ignores_declaration_order(
    outputs: Seq<(String, u32)>,
    a: Seq<(String, u32)>,
    b: Seq<(String, u32)>,
)
    requires
        a.to_set() == b.to_set(),
    ensures
        resolved_outputs(outputs, a).to_set() == resolved_outputs(outputs, b).to_set(),
{
    lemma_resolved_subset(outputs, a, b);
    lemma_resolved_subset(outputs, b, a);
    assert(resolved_outputs(outputs, a).to_set() =~= resolved_outputs(outputs, b).to_set());
}

} // verus!
