//! Texture records and the pixel-layout decision.
//!
//! A texture is a decoded image that the renderer has uploaded to the
//! graphics context; here it is the record of that upload — the context's
//! handle, the source path the image came from, and the wrap and filter
//! modes fixed at creation.  Decoding and uploading happen outside; the
//! decision which decoded pixel layouts are uploadable, and as which
//! texel format, is made here.

use vstd::prelude::*;

use crate::error::ModelError;

verus! {

/// Record of a texture upload.
#[derive(Debug, Clone)]
pub struct Texture {
    /// The graphics context's handle for the upload.
    pub id: u32,
    /// Path of the image file the texture was decoded from.
    pub path: String,
    /// Wrap mode along the horizontal texture axis.
    pub wrap_s_mode: u32,
    /// Wrap mode along the vertical texture axis.
    pub wrap_t_mode: u32,
    /// Filter mode when the texture is sampled below its resolution.
    pub min_filter_mode: u32,
    /// Filter mode when the texture is sampled above its resolution.
    pub mag_filter_mode: u32,
}

impl Texture {
    /// The record of an upload under handle `id`, with its source path
    /// and the modes it was created with.
    pub fn new(
        id: u32,
        path: String,
        wrap_s_mode: u32,
        wrap_t_mode: u32,
        min_filter_mode: u32,
        mag_filter_mode: u32,
    ) -> (t: Texture)
        ensures
            t.id == id,
            t.path == path,
            t.wrap_s_mode == wrap_s_mode,
            t.wrap_t_mode == wrap_t_mode,
            t.min_filter_mode == min_filter_mode,
            t.mag_filter_mode == mag_filter_mode,
    {
        Texture { id, path, wrap_s_mode, wrap_t_mode, min_filter_mode, mag_filter_mode }
    }

    /// The graphics context's handle for the upload.
    pub fn id(&self) -> (r: u32)
        ensures
            r == self.id,
    {
        self.id
    }
}

/// Pixel layout of a decoded image, as the image decoder reports it.
#[derive(Debug, PartialEq, Eq, Structural, Clone, Copy)]
pub enum PixelLayout {
    /// One luminance byte per pixel.
    Luma8,
    /// Luminance and alpha bytes per pixel.
    LumaA8,
    /// Red, green and blue bytes per pixel.
    Rgb8,
    /// Red, green, blue and alpha bytes per pixel.
    Rgba8,
    /// Any other decoded layout.
    Other,
}

/// Texel format an image is uploaded as, one channel count each.
#[derive(Debug, PartialEq, Eq, Structural, Clone, Copy)]
pub enum TexelFormat {
    /// One channel.
    Red,
    /// Two channels.
    Rg,
    /// Three channels.
    Rgb,
    /// Four channels.
    Rgba,
}

/// The upload format for a decoded layout: the four byte-per-channel
/// layouts map to the format with the same channel count.
pub open spec fn upload_format_spec(layout: PixelLayout) -> Option<TexelFormat> {
    match layout {
        PixelLayout::Luma8 => Some(TexelFormat::Red),
        PixelLayout::LumaA8 => Some(TexelFormat::Rg),
        PixelLayout::Rgb8 => Some(TexelFormat::Rgb),
        PixelLayout::Rgba8 => Some(TexelFormat::Rgba),
        PixelLayout::Other => None,
    }
}

/// Decides the upload format of a decoded image: the four supported
/// layouts map to their texel format, every other layout is a hard
/// error rather than a partial upload.
pub fn upload_format(layout: PixelLayout) -> (r: Result<TexelFormat, ModelError>)
    ensures
        match r {
            Ok(f) => upload_format_spec(layout) == Some(f),
            Err(e) => upload_format_spec(layout) is None && (e matches
                ModelError::TextureLoadError(m) && m@ == "unsupported pixel layout"@),
        },
{
    match layout {
        PixelLayout::Luma8 => Ok(TexelFormat::Red),
        PixelLayout::LumaA8 => Ok(TexelFormat::Rg),
        PixelLayout::Rgb8 => Ok(TexelFormat::Rgb),
        PixelLayout::Rgba8 => Ok(TexelFormat::Rgba),
        PixelLayout::Other => Err(
            ModelError::TextureLoadError("unsupported pixel layout".to_owned()),
        ),
    }
}

} // verus!
