//! Authored colors and their conversion to the GPU's linear color space.
//!
//! Colors are authored as sRGB-encoded bytes and kept that way throughout
//! batching; they are converted to linear-space values exactly once, when
//! a frame plan is produced for submission. The conversion itself is
//! palette's sRGB transfer function, taken on trust; its result is only
//! ever named, never restated.

use vstd::prelude::*;

verus! {

/// An sRGB-encoded color with straight alpha, one byte per channel.
#[derive(Clone, Copy, Debug, PartialEq, Eq, Structural)]
pub struct Color {
    pub red: u8,
    pub green: u8,
    pub blue: u8,
    pub alpha: u8,
}

/// The fixed background the render pass clears to.
pub open spec fn spec_background() -> Color {
    Color { red: 67, green: 140, blue: 127, alpha: 1 }
}

/// The fixed background the render pass clears to, before its one
/// conversion to linear space at submission.
pub fn background() -> (c: Color)
    ensures
        c == spec_background(),
{
    Color { red: 67, green: 140, blue: 127, alpha: 1 }
}

/// The IEEE-754 bit patterns of the linear-space channels that palette's
/// sRGB transfer function yields for the given encoded bytes, in the
/// order red, green, blue, alpha. A pure function of the four bytes.
pub uninterp spec fn linear_rgba_bits(red: u8, green: u8, blue: u8, alpha: u8) -> (
    u32,
    u32,
    u32,
    u32,
);

/// Relies on palette's `Srgba::<u8>::into_linear`: the sRGB transfer
/// function applied to each color byte (a lookup in a constant table)
/// and alpha scaled to the unit interval, all pure functions of the
/// bytes alone. Returns the bit patterns of the four resulting values.
#[verifier::external_body]
pub(crate) fn srgb_to_linear_bits(red: u8, green: u8, blue: u8, alpha: u8) -> (out: (
    u32,
    u32,
    u32,
    u32,
))
    ensures
        out == linear_rgba_bits(red, green, blue, alpha),
{
    let c: palette::LinSrgba = palette::Srgba::new(red, green, blue, alpha).into_linear();
    (c.red.to_bits(), c.green.to_bits(), c.blue.to_bits(), c.alpha.to_bits())
}

} // verus!
