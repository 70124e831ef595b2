use vstd::prelude::*;

verus! {

/// One 8-bit-per-channel RGB value: a pixel of the output raster, or a
/// texel of a decoded image texture.
#[derive(Clone, Copy, PartialEq, Eq, Structural, Debug)]
pub struct Pixel {
    pub r: u8,
    pub g: u8,
    pub b: u8,
}

impl Pixel {
    /// The zero pixel, the raster's initial contents.
    pub open spec fn black() -> Pixel {
        Pixel { r: 0, g: 0, b: 0 }
    }
}

/// A gamma-corrected channel, already scaled by 256, clamped to one byte.
pub open spec fn clamped_channel(scaled: u64) -> u8 {
    if scaled < 255 {
        scaled as u8
    } else {
        255u8
    }
}

/// Quantize one color channel. The driver averages a pixel's samples,
/// applies gamma correction and scales by 256; the resulting magnitude is
/// clamped here to the 8-bit range.
pub fn quantize_channel(scaled: u64) -> (c: u8)
    ensures
        c == clamped_channel(scaled),
{
    if scaled < 255 {
        scaled as u8
    } else {
        255
    }
}

/// Quantize a whole color: each channel clamped to one byte.
pub fn quantize_pixel(r: u64, g: u64, b: u64) -> (p: Pixel)
    ensures
        p.r == clamped_channel(r),
        p.g == clamped_channel(g),
        p.b == clamped_channel(b),
{
    Pixel { r: quantize_channel(r), g: quantize_channel(g), b: quantize_channel(b) }
}

} // verus!
