//! Render targets, draw validation and uniform change detection for an OpenGL wrapper.

mod gl_enums;

pub use gl_enums::{COLOR_BUFFER_BIT, LINEAR, NEAREST, TEXTURE_2D, TEXTURE_2D_MULTISAMPLE};
pub mod attachment;
pub mod blit;
pub mod context;
pub mod draw;
pub mod framebuffer;
pub mod program;
pub mod transform_feedback;
pub mod uniforms;
pub mod uniforms_storage;
pub mod vertex;
