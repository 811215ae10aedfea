//! Colors and their quantization to 8-bit display channels.

use vstd::prelude::*;
use vstd::arithmetic::div_mod::lemma_div_is_ordered;
use crate::SCALE;

verus! {

/// A 3-channel color. Each channel is fixed-point: `SCALE` stands for a full
/// channel (the real value `1.0`); values outside `[0, SCALE]` are legal and
/// are clamped only on quantization.
#[derive(Clone, Copy, Debug, PartialEq, Eq, Structural)]
pub struct Color3 {
    pub r: i64,
    pub g: i64,
    pub b: i64,
}

/// Conversion of one channel to an 8-bit value: clamp into `[0, SCALE]`,
/// scale to 255, and truncate (floor, not round).
pub open spec fn quantize_channel_spec(v: int) -> int {
    if v <= 0 {
        0
    } else if v >= SCALE {
        255
    } else {
        (v * 255) / (SCALE as int)
    }
}

/// Quantize one fixed-point channel to an 8-bit value by clamping and
/// truncating.
pub fn quantize_channel(v: i64) -> (r: u8)
    ensures
        r as int == quantize_channel_spec(v as int),
{
    if v <= 0 {
        0
    } else if v >= SCALE {
        255
    } else {
        let w: u64 = (v as u64) * 255;
        proof {
            lemma_div_is_ordered(w as int, 255 * (SCALE as int) - 255, SCALE as int);
            assert((255 * (SCALE as int) - 255) / (SCALE as int) == 254);
        }
        (w / (SCALE as u64)) as u8
    }
}

impl Color3 {
    pub fn new(r: i64, g: i64, b: i64) -> (c: Color3)
        ensures
            c.r == r,
            c.g == g,
            c.b == b,
    {
        Color3 { r, g, b }
    }

    /// The three channels as 8-bit values, in `(r, g, b)` order, each
    /// clamped into `[0, 1]` and truncated to its 255-step.
    pub fn to_rgb(&self) -> (rgb: (u8, u8, u8))
        ensures
            rgb.0 as int == quantize_channel_spec(self.r as int),
            rgb.1 as int == quantize_channel_spec(self.g as int),
            rgb.2 as int == quantize_channel_spec(self.b as int),
    {
        (quantize_channel(self.r), quantize_channel(self.g), quantize_channel(self.b))
    }
}

} // verus!
