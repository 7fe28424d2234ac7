use vstd::prelude::*;

verus! {

/// `GL_TEXTURE_2D`, the bind point of a two-dimensional texture.
pub const TEXTURE_2D: u32 = 0x0DE1;

/// `GL_TEXTURE_2D_MULTISAMPLE`, the bind point of a multisampled two-dimensional texture.
pub const TEXTURE_2D_MULTISAMPLE: u32 = 0x9100;

/// `GL_COLOR_BUFFER_BIT`, the mask that selects the color buffers of a blit.
pub const COLOR_BUFFER_BIT: u32 = 0x4000;

/// `GL_NEAREST`, nearest-neighbour filtering.
pub const NEAREST: u32 = 0x2600;

/// `GL_LINEAR`, linear filtering.
pub const LINEAR: u32 = 0x2601;

} // verus!
