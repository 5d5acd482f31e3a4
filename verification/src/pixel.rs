//! Packed RGBA8 pixels and the noise placeholder that fills the texture.

use vstd::prelude::*;

verus! {

/// Alpha lives in the top eight bits of a packed RGBA8 pixel.
pub open spec fn spec_force_opaque(p: u32) -> u32 {
    p | 0xFF00_0000
}

/// The alpha channel of a packed pixel.
pub open spec fn alpha_channel(p: u32) -> u32 {
    p >> 24
}

/// The three color channels of a packed pixel, alpha masked off.
pub open spec fn color_channels(p: u32) -> u32 {
    p & 0x00FF_FFFF
}

/// Force the alpha channel of a packed pixel to fully opaque.
pub fn force_opaque(p: u32) -> (r: u32)
    ensures
        r == spec_force_opaque(p),
{
    p | 0xFF00_0000
}

/// Forcing opacity sets the alpha channel to 0xFF and leaves the three
/// color channels exactly as they were, whatever the input alpha was.
pub proof fn lemma_force_opaque_round_trip(p: u32)
    ensures
        alpha_channel(spec_force_opaque(p)) == 0xFF,
        color_channels(spec_force_opaque(p)) == color_channels(p),
{
    assert((p | 0xFF00_0000) >> 24 == 0xFF) by (bit_vector);
    assert((p | 0xFF00_0000) & 0x00FF_FFFF == p & 0x00FF_FFFF) by (bit_vector);
}

/// A color with one byte per channel, the CPU-side form of RGBA8.
#[derive(Clone, Copy, PartialEq, Eq, Structural, Debug)]
pub struct Color {
    pub r: u8,
    pub g: u8,
    pub b: u8,
    pub a: u8,
}

/// Deterministic placeholder noise: `count` packed pixels with the alpha
/// channel forced opaque, derived from `seed` by a linear congruential step.
pub fn noise_pixels(seed: u32, count: usize) -> (r: Vec<u32>)
    ensures
        r@.len() == count,
        forall|i: int| 0 <= i < r@.len() ==> alpha_channel(#[trigger] r@[i]) == 0xFF,
{
    let mut out: Vec<u32> = Vec::new();
    let mut s: u32 = seed;
    let mut i: usize = 0;
    while i < count
        invariant
            out@.len() == i,
            i <= count,
            forall|j: int| 0 <= j < out@.len() ==> alpha_channel(#[trigger] out@[j]) == 0xFF,
        decreases count - i,
    {
        s = s.wrapping_mul(1664525).wrapping_add(1013904223);
        let p: u32 = force_opaque(s);
        proof {
            lemma_force_opaque_round_trip(s);
        }
        out.push(p);
        i = i + 1;
    }
    out
}

} // verus!
