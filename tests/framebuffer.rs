use glium::attachment::{
    resolve_color, resolve_depth, Attachment, AttachmentRole, ColorAttachment, DepthAttachment,
    DepthRenderBuffer, DepthStencilAttachments, DepthStencilRenderBuffer, DepthTexture2d,
    FramebufferError, Image, Mipmap, RenderBuffer, StencilRenderBuffer, StencilTexture2d,
    Texture2d, Texture2dMultisample,
};
use glium::blit::{BlitTarget, MagnifySamplerFilter};
use glium::context::{Api, Context, GlVersion};
use glium::draw::{DepthTest, DrawError, DrawParameters, Rect};
use glium::framebuffer::{BlitSurface, MultiOutputFrameBuffer, SimpleFrameBuffer};
use glium::program::Program;
use glium::vertex::{PerInstance, VertexBufferAny, VertexBufferAnySlice, VerticesSource};
use glium::{COLOR_BUFFER_BIT, LINEAR, NEAREST, TEXTURE_2D, TEXTURE_2D_MULTISAMPLE};

fn context() -> Context {
    Context {
        version: GlVersion(Api::Gl, 3, 3),
        gl_ext_transform_feedback: false,
        max_viewport_dims: (4096, 2048),
    }
}

fn image(id: u32, width: u32, height: u32) -> Image {
    Image { id, width, height }
}

fn params(depth_test: DepthTest, depth_write: bool, viewport: Option<Rect>) -> DrawParameters {
    DrawParameters { depth_test, depth_write, viewport }
}

fn program_with_outputs() -> Program {
    Program {
        id: 9,
        outputs: vec![("output1".to_string(), 0), ("output2".to_string(), 1)],
        transform_feedback_mode: None,
        transform_feedback_varyings: vec![],
    }
}

fn tex2d(id: u32) -> Attachment {
    Attachment::Texture { id, bind_point: TEXTURE_2D, level: 0, layer: 0 }
}

#[test]
fn color_only_target_has_no_depth_or_stencil_bits() {
    let color = Texture2d(image(1, 64, 32));
    let fb = SimpleFrameBuffer::new(&context(), &color).unwrap();
    assert_eq!(fb.get_depth_buffer_bits(), None);
    assert_eq!(fb.get_stencil_buffer_bits(), None);
    assert!(!fb.has_depth_buffer());
    assert_eq!(fb.get_dimensions(), (64, 32));
    let attachments = fb.get_attachments();
    assert_eq!(attachments.colors, vec![(0, tex2d(1))]);
    assert_eq!(attachments.depth_stencil, DepthStencilAttachments::Absent);
}

#[test]
fn render_buffer_color_target() {
    let color = RenderBuffer(image(4, 10, 20));
    let fb = SimpleFrameBuffer::new(&context(), &color).unwrap();
    assert_eq!(fb.get_dimensions(), (10, 20));
    assert_eq!(fb.get_attachments().colors, vec![(0, Attachment::RenderBuffer(4))]);
}

#[test]
fn multisample_color_target_uses_its_bind_point() {
    let color = Texture2dMultisample(image(5, 8, 8));
    let fb = SimpleFrameBuffer::new(&context(), &color).unwrap();
    assert_eq!(
        fb.get_attachments().colors,
        vec![(0, Attachment::Texture { id: 5, bind_point: TEXTURE_2D_MULTISAMPLE, level: 0, layer: 0 })]
    );
}

#[test]
fn depth_texture_of_other_size_is_refused() {
    let color = Texture2d(image(1, 64, 32));
    let depth = DepthTexture2d(image(2, 64, 33));
    let r = SimpleFrameBuffer::with_depth_buffer(&context(), &color, &depth);
    assert_eq!(r.err(), Some(FramebufferError::DimensionsMismatch(AttachmentRole::Depth)));
}

#[test]
fn depth_render_buffer_of_other_size_is_refused() {
    let color = Texture2d(image(1, 64, 32));
    let depth = DepthRenderBuffer(image(2, 32, 32));
    let stencil = StencilRenderBuffer(image(3, 64, 32));
    let r = SimpleFrameBuffer::with_depth_and_stencil_buffer(&context(), &color, &depth, &stencil);
    assert_eq!(r.err(), Some(FramebufferError::DimensionsMismatch(AttachmentRole::Depth)));
}

#[test]
fn stencil_of_other_size_is_refused() {
    let color = Texture2d(image(1, 64, 32));
    let stencil = StencilTexture2d(image(3, 1, 1));
    let r = SimpleFrameBuffer::with_stencil_buffer(&context(), &color, &stencil);
    assert_eq!(r.err(), Some(FramebufferError::DimensionsMismatch(AttachmentRole::Stencil)));
}

#[test]
fn depth_and_stencil_are_classified_and_reported() {
    let color = Texture2d(image(1, 64, 32));
    let depth = DepthTexture2d(image(2, 64, 32));
    let stencil = StencilRenderBuffer(image(3, 64, 32));
    let fb = SimpleFrameBuffer::with_depth_and_stencil_buffer(&context(), &color, &depth, &stencil).unwrap();
    assert_eq!(fb.get_depth_buffer_bits(), Some(32));
    assert_eq!(fb.get_stencil_buffer_bits(), Some(8));
    assert_eq!(
        fb.get_attachments().depth_stencil,
        DepthStencilAttachments::DepthAndStencil(tex2d(2), Attachment::RenderBuffer(3))
    );
}

#[test]
fn depth_only_target() {
    let color = Texture2d(image(1, 16, 16));
    let depth = DepthRenderBuffer(image(2, 16, 16));
    let fb = SimpleFrameBuffer::with_depth_buffer(&context(), &color, &depth).unwrap();
    assert!(fb.has_depth_buffer());
    assert_eq!(fb.get_stencil_buffer_bits(), None);
    assert_eq!(fb.get_attachments().depth_stencil, DepthStencilAttachments::DepthOnly(Attachment::RenderBuffer(2)));
}

#[test]
fn stencil_only_target() {
    let color = Texture2d(image(1, 16, 16));
    let stencil = StencilTexture2d(image(3, 16, 16));
    let fb = SimpleFrameBuffer::with_stencil_buffer(&context(), &color, &stencil).unwrap();
    assert_eq!(fb.get_depth_buffer_bits(), None);
    assert_eq!(fb.get_stencil_buffer_bits(), Some(8));
    assert_eq!(fb.get_attachments().depth_stencil, DepthStencilAttachments::StencilOnly(tex2d(3)));
}

#[test]
fn combined_depth_stencil_is_refused() {
    let color = Texture2d(image(1, 16, 16));
    let ds = DepthStencilRenderBuffer(image(2, 16, 16));
    let r = SimpleFrameBuffer::with_depth_stencil_buffer(&context(), &color, &ds);
    assert_eq!(r.err(), Some(FramebufferError::DepthStencilNotSupported));
}

#[test]
fn unwired_attachment_kinds_are_refused() {
    let img = image(1, 16, 16);
    let m = Mipmap { image: &img, level: 2 };
    assert_eq!(
        resolve_color(ColorAttachment::Texture3d(m, 1)).err(),
        Some(FramebufferError::UnsupportedAttachment(AttachmentRole::Color))
    );
    assert_eq!(
        resolve_depth(DepthAttachment::Texture2dArray(m)).err(),
        Some(FramebufferError::UnsupportedAttachment(AttachmentRole::Depth))
    );
    let ok = resolve_color(ColorAttachment::Texture2d(m)).unwrap();
    assert_eq!(ok.attachment, Attachment::Texture { id: 1, bind_point: TEXTURE_2D, level: 2, layer: 0 });
    assert_eq!((ok.width, ok.height), (16, 16));
}

#[test]
fn depth_write_without_depth_buffer_is_refused() {
    let color = Texture2d(image(1, 64, 32));
    let mut fb = SimpleFrameBuffer::new(&context(), &color).unwrap();
    let program = program_with_outputs();
    let vb = VertexBufferAny { id: 7, len: 3 };
    let r = fb.draw(&vb, &program, &params(DepthTest::Overwrite, true, None));
    assert_eq!(r.err(), Some(DrawError::NoDepthBuffer));
    let r = fb.draw(&vb, &program, &params(DepthTest::IfLess, false, None));
    assert_eq!(r.err(), Some(DrawError::NoDepthBuffer));
    assert_eq!(fb.get_dimensions(), (64, 32));
    assert_eq!(fb.get_attachments().colors, vec![(0, tex2d(1))]);
}

#[test]
fn depth_test_with_depth_buffer_draws() {
    let color = Texture2d(image(1, 64, 32));
    let depth = DepthTexture2d(image(2, 64, 32));
    let mut fb = SimpleFrameBuffer::with_depth_buffer(&context(), &color, &depth).unwrap();
    let vb = VertexBufferAny { id: 7, len: 3 };
    let cmd = fb.draw(&vb, &program_with_outputs(), &params(DepthTest::IfLess, true, None)).unwrap();
    assert_eq!(cmd.attachments.depth_stencil, DepthStencilAttachments::DepthOnly(tex2d(2)));
}

#[test]
fn viewport_limits_are_checked_per_axis() {
    let color = Texture2d(image(1, 64, 32));
    let mut fb = SimpleFrameBuffer::new(&context(), &color).unwrap();
    let program = program_with_outputs();
    let vb = VertexBufferAny { id: 7, len: 3 };
    let wide = Rect { left: 0, bottom: 0, width: 4097, height: 10 };
    let tall = Rect { left: 0, bottom: 0, width: 10, height: 2049 };
    let exact = Rect { left: 0, bottom: 0, width: 4096, height: 2048 };
    let r = fb.draw(&vb, &program, &params(DepthTest::Overwrite, false, Some(wide)));
    assert_eq!(r.err(), Some(DrawError::ViewportTooLarge));
    let r = fb.draw(&vb, &program, &params(DepthTest::Overwrite, false, Some(tall)));
    assert_eq!(r.err(), Some(DrawError::ViewportTooLarge));
    let r = fb.draw(&vb, &program, &params(DepthTest::Overwrite, false, Some(exact)));
    assert!(r.is_ok());
}

#[test]
fn draw_command_lists_target_and_sources() {
    let color = Texture2d(image(1, 64, 32));
    let mut fb = SimpleFrameBuffer::new(&context(), &color).unwrap();
    let program = program_with_outputs();
    let vb = VertexBufferAny { id: 7, len: 3 };
    let inst = VertexBufferAny { id: 8, len: 10 };
    let per_instance = PerInstance(VertexBufferAnySlice { buffer: &inst, offset: 2, len: 4 });
    let p = params(DepthTest::Overwrite, false, None);
    let cmd = fb.draw((&vb, per_instance), &program, &p).unwrap();
    assert_eq!(cmd.dimensions, (64, 32));
    assert_eq!(cmd.program, 9);
    assert_eq!(cmd.parameters, p);
    assert_eq!(cmd.attachments.colors, vec![(0, tex2d(1))]);
    assert_eq!(cmd.vertex_sources.len(), 2);
    let VerticesSource::VertexBuffer(b0, o0, l0, i0) = cmd.vertex_sources[0];
    assert_eq!((b0.id, o0, l0, i0), (7, 0, 3, false));
    let VerticesSource::VertexBuffer(b1, o1, l1, i1) = cmd.vertex_sources[1];
    assert_eq!((b1.id, o1, l1, i1), (8, 2, 4, true));
}

#[test]
fn multi_output_slots_follow_the_program() {
    let tex1 = Texture2d(image(11, 32, 32));
    let tex2 = Texture2d(image(12, 32, 32));
    let program = program_with_outputs();
    let p = params(DepthTest::Overwrite, false, None);
    let vb = VertexBufferAny { id: 7, len: 3 };

    let mut fb = MultiOutputFrameBuffer::new(&context(), &[("output1", &tex1), ("output2", &tex2)]).unwrap();
    let cmd = fb.draw(&vb, &program, &p).unwrap();
    assert_eq!(cmd.attachments.colors, vec![(0, tex2d(11)), (1, tex2d(12))]);

    let mut reversed = MultiOutputFrameBuffer::new(&context(), &[("output2", &tex2), ("output1", &tex1)]).unwrap();
    let cmd = reversed.draw(&vb, &program, &p).unwrap();
    let mut colors = cmd.attachments.colors.clone();
    colors.sort_by_key(|c| c.0);
    assert_eq!(colors, vec![(0, tex2d(11)), (1, tex2d(12))]);
    assert_eq!(cmd.dimensions, (32, 32));
}

#[test]
fn multi_output_unknown_name_fails_the_draw() {
    let tex1 = Texture2d(image(11, 32, 32));
    let tex3 = Texture2d(image(13, 32, 32));
    let mut fb = MultiOutputFrameBuffer::new(&context(), &[("output1", &tex1), ("output3", &tex3)]).unwrap();
    let vb = VertexBufferAny { id: 7, len: 3 };
    let r = fb.draw(&vb, &program_with_outputs(), &params(DepthTest::Overwrite, false, None));
    assert_eq!(r.err(), Some(DrawError::FragmentOutputNotFound("output3".to_string())));
}

#[test]
fn multi_output_construction_errors() {
    let tex1 = Texture2d(image(11, 32, 32));
    let tex2 = Texture2d(image(12, 32, 16));
    let r = MultiOutputFrameBuffer::new(&context(), &[]);
    assert_eq!(r.err(), Some(FramebufferError::NoColorAttachment));
    let r = MultiOutputFrameBuffer::new(&context(), &[("a", &tex1), ("b", &tex2)]);
    assert_eq!(r.err(), Some(FramebufferError::DimensionsMismatch(AttachmentRole::Color)));
    let depth = DepthTexture2d(image(3, 16, 16));
    let r = MultiOutputFrameBuffer::with_depth_buffer(&context(), &[("a", &tex1)], &depth);
    assert_eq!(r.err(), Some(FramebufferError::DimensionsMismatch(AttachmentRole::Depth)));
}

#[test]
fn multi_output_with_depth_buffer() {
    let tex1 = Texture2d(image(11, 32, 32));
    let depth = DepthRenderBuffer(image(3, 32, 32));
    let fb = MultiOutputFrameBuffer::with_depth_buffer(&context(), &[("output1", &tex1)], &depth).unwrap();
    assert_eq!(fb.get_depth_buffer_bits(), Some(32));
    assert_eq!(fb.get_stencil_buffer_bits(), None);
    assert_eq!(fb.get_dimensions(), (32, 32));
    let any = fb.build_attachments_any();
    assert_eq!(any.colors, vec![(0, tex2d(11))]);
    assert_eq!(any.depth_stencil, DepthStencilAttachments::DepthOnly(Attachment::RenderBuffer(3)));
}

#[test]
fn scaled_blit_between_targets() {
    let src_tex = Texture2d(image(1, 4, 4));
    let dst_tex = Texture2d(image(2, 8, 8));
    let src = SimpleFrameBuffer::new(&context(), &src_tex).unwrap();
    let dst = SimpleFrameBuffer::new(&context(), &dst_tex).unwrap();
    let source_rect = Rect { left: 0, bottom: 0, width: 4, height: 4 };
    let target_rect = BlitTarget { left: 0, bottom: 0, width: 8, height: 8 };
    let cmd = src.blit_color(&source_rect, &BlitSurface::Simple(&dst), &target_rect, MagnifySamplerFilter::Linear);
    assert_eq!(cmd.filter, LINEAR);
    assert_eq!(cmd.mask, COLOR_BUFFER_BIT);
    assert_eq!(cmd.source_rect, source_rect);
    assert_eq!(cmd.target_rect, target_rect);
    assert_eq!(cmd.source.unwrap().colors, vec![(0, tex2d(1))]);
    assert_eq!(cmd.target.unwrap().colors, vec![(0, tex2d(2))]);
}

#[test]
fn blit_from_screen_and_from_multi_output() {
    let tex = Texture2d(image(2, 8, 8));
    let out1 = Texture2d(image(5, 8, 8));
    let out2 = Texture2d(image(6, 8, 8));
    let dst = SimpleFrameBuffer::new(&context(), &tex).unwrap();
    let multi = MultiOutputFrameBuffer::new(&context(), &[("x", &out1), ("y", &out2)]).unwrap();
    let rect = Rect { left: 1, bottom: 2, width: 3, height: 4 };
    let target = BlitTarget { left: 0, bottom: 0, width: -3, height: 4 };
    let cmd = dst.blit_from_frame(&rect, &target, MagnifySamplerFilter::Nearest);
    assert!(cmd.source.is_none());
    assert_eq!(cmd.filter, NEAREST);
    assert_eq!(cmd.target.unwrap().colors, vec![(0, tex2d(2))]);
    let cmd = dst.blit_from_multioutput_framebuffer(&multi, &rect, &target, MagnifySamplerFilter::Nearest);
    assert_eq!(cmd.source.unwrap().colors, vec![(0, tex2d(5)), (1, tex2d(6))]);
    let cmd = multi.blit_color(&rect, &BlitSurface::Frame, &target, MagnifySamplerFilter::Linear);
    assert!(cmd.target.is_none());
    let cmd = multi.blit_from_simple_framebuffer(&dst, &rect, &target, MagnifySamplerFilter::Linear);
    assert_eq!(cmd.source.unwrap().colors, vec![(0, tex2d(2))]);
}

#[test]
fn clear_lists_the_attachments_and_values() {
    let color = Texture2d(image(1, 8, 8));
    let depth = DepthTexture2d(image(2, 8, 8));
    let fb = SimpleFrameBuffer::with_depth_buffer(&context(), &color, &depth).unwrap();
    let rgba = [0.0f32, 0.5, 1.0, 1.0].map(f32::to_bits);
    let cmd = fb.clear(Some(rgba), Some(1.0f32.to_bits()), None);
    assert_eq!(cmd.attachments.colors, vec![(0, tex2d(1))]);
    assert_eq!(cmd.attachments.depth_stencil, DepthStencilAttachments::DepthOnly(tex2d(2)));
    assert_eq!(cmd.color, Some(rgba));
    assert_eq!(cmd.depth, Some(1.0f32.to_bits()));
    assert_eq!(cmd.stencil, None);

    let out1 = Texture2d(image(5, 8, 8));
    let out2 = Texture2d(image(6, 8, 8));
    let multi = MultiOutputFrameBuffer::new(&context(), &[("x", &out1), ("y", &out2)]).unwrap();
    let cmd = multi.clear(None, None, Some(3));
    assert_eq!(cmd.attachments.colors, vec![(0, tex2d(5)), (1, tex2d(6))]);
    assert_eq!(cmd.stencil, Some(3));
}
