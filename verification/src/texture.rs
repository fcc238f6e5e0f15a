//! What is handed to the GPU when pixels become a texture.

use crate::render::gl_size;
use crate::types::GlImageData;
use vstd::prelude::*;

verus! {

/// Bit pattern of the factor that turns a blur setting into the strength of
/// the blur: the strength is this factor (0.05) times the setting times the
/// larger dimension of the image.
pub const BLUR_FACTOR_BITS: u32 = 0x3d4c_cccd;

/// Bit pattern of the distance (0.05) by which a label's shadow is moved
/// right and down, in the label's own coordinates.
pub const SHADOW_OFFSET_BITS: u32 = 0x3d4c_cccd;

/// How a texture is sampled between its pixels.
#[derive(Clone, Copy, Debug, PartialEq, Eq)]
pub enum Filter {
    Nearest,
    Linear,
}

/// How a texture is sampled outside of its bounds.
#[derive(Clone, Copy, Debug, PartialEq, Eq)]
pub enum Wrap {
    Repeat,
    ClampToEdge,
}

/// Sampling parameters of a texture.
#[derive(Clone, Copy, Debug, PartialEq, Eq)]
pub struct TexParams {
    pub min_filter: Filter,
    pub mag_filter: Filter,
    pub wrap_s: Wrap,
    pub wrap_t: Wrap,
}

/// The upload of RGBA8 pixels as a texture: its size, as the graphics
/// interface takes it, and how it is sampled.
#[derive(Clone, Copy, Debug, PartialEq, Eq)]
pub struct TextureUpload {
    pub width: i32,
    pub height: i32,
    pub params: TexParams,
}

/// Linear filtering both ways and clamping to the edge along both axes.
pub open spec fn default_tex_params() -> TexParams {
    TexParams {
        min_filter: Filter::Linear,
        mag_filter: Filter::Linear,
        wrap_s: Wrap::ClampToEdge,
        wrap_t: Wrap::ClampToEdge,
    }
}

/// The sampling parameters that every uploaded image gets.
pub fn set_default_tex_params() -> (params: TexParams)
    ensures
        params == default_tex_params(),
{
    TexParams {
        min_filter: Filter::Linear,
        mag_filter: Filter::Linear,
        wrap_s: Wrap::ClampToEdge,
        wrap_t: Wrap::ClampToEdge,
    }
}

/// The upload that makes a texture of an image's pixels, or of a blurred
/// copy of them, which has the same size: at the image's width and height,
/// filtered linearly and clamped to the edge.
pub open spec fn planned_upload(data: GlImageData) -> TextureUpload {
    TextureUpload {
        width: data.width as i32,
        height: data.height as i32,
        params: default_tex_params(),
    }
}

/// The upload that makes a texture of an image's pixels, or of a blurred
/// copy of them.
pub fn texture_upload(data: &GlImageData) -> (upload: TextureUpload)
    requires
        data.width <= i32::MAX,
        data.height <= i32::MAX,
    ensures
        upload == planned_upload(*data),
{
    TextureUpload {
        width: gl_size(data.width),
        height: gl_size(data.height),
        params: set_default_tex_params(),
    }
}

} // verus!
