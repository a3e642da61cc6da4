//! The color blend: linear interpolation, channel by channel, between a
//! source pixel and a flat target color, in 8-bit gamma-encoded space.
use vstd::prelude::*;

verus! {

/// The blend factor is held in thousandths: `0` keeps the source pixel,
/// `BLEND_SCALE` gives the flat target color.
pub const BLEND_SCALE: u32 = 1000;

/// One RGBA pixel, 8 bits per channel.
#[derive(Clone, Copy, Debug, PartialEq, Eq, Structural)]
pub struct Pixel {
    pub r: u8,
    pub g: u8,
    pub b: u8,
    pub a: u8,
}

/// An RGB color: the target of a blend.
#[derive(Clone, Copy, Debug, PartialEq, Eq, Structural)]
pub struct Color {
    pub r: u8,
    pub g: u8,
    pub b: u8,
}

impl Color {
    /// Pure red, the color a fresh entry starts with.
    pub fn red() -> (c: Color)
        ensures
            c == (Color { r: 255, g: 0, b: 0 }),
    {
        Color { r: 255, g: 0, b: 0 }
    }

    pub fn from_rgb(r: u8, g: u8, b: u8) -> (c: Color)
        ensures
            c == (Color { r, g, b }),
    {
        Color { r, g, b }
    }
}

/// A factor above the scale counts as the full scale.
pub open spec fn clamp_factor(factor: u32) -> nat {
    if factor > BLEND_SCALE {
        BLEND_SCALE as nat
    } else {
        factor as nat
    }
}

/// One channel: `((1 - f) * s + f * t)` with `f` in thousandths, computed
/// as `((BLEND_SCALE - f) * s + f * t) / BLEND_SCALE` and truncated toward
/// zero.
pub open spec fn blend_channel(s: u8, t: u8, f: nat) -> u8 {
    (((BLEND_SCALE - f) * s + f * t) / (BLEND_SCALE as int)) as u8
}

pub open spec fn blend_spec(p: Pixel, target: Color, factor: u32) -> Pixel {
    let f = clamp_factor(factor);
    Pixel {
        r: blend_channel(p.r, target.r, f),
        g: blend_channel(p.g, target.g, f),
        b: blend_channel(p.b, target.b, f),
        a: p.a,
    }
}

fn blend_channel_exec(s: u8, t: u8, f: u32) -> (r: u8)
    requires
        f <= BLEND_SCALE,
    ensures
        r == blend_channel(s, t, f as nat),
        (r as int) * (BLEND_SCALE as int) <= (BLEND_SCALE - f) * s + f * t,
{
    let keep: u32 = BLEND_SCALE - f;
    assert(keep * (s as u32) <= 1000 * 255) by (nonlinear_arith)
        requires keep <= 1000, s <= 255;
    assert(f * (t as u32) <= f * 255) by (nonlinear_arith)
        requires t <= 255;
    assert(keep * 255 + f * 255 == 1000 * 255) by (nonlinear_arith)
        requires keep + f == 1000;
    assert(keep * (s as u32) <= keep * 255) by (nonlinear_arith)
        requires s <= 255;
    let sum: u32 = keep * (s as u32) + f * (t as u32);
    let q: u32 = sum / BLEND_SCALE;
    assert(q <= 255);
    assert(q * 1000 <= sum);
    q as u8
}

/// Blends `p` toward `target` by `factor` thousandths (clamped to the
/// scale). Alpha passes through unchanged.
pub fn blend(p: Pixel, target: Color, factor: u32) -> (r: Pixel)
    ensures
        r == blend_spec(p, target, factor),
        r.a == p.a,
        factor == 0 ==> r == p,
        factor >= BLEND_SCALE ==> r.r == target.r && r.g == target.g && r.b == target.b,
{
    let f: u32 = if factor > BLEND_SCALE {
        BLEND_SCALE
    } else {
        factor
    };
    let r = Pixel {
        r: blend_channel_exec(p.r, target.r, f),
        g: blend_channel_exec(p.g, target.g, f),
        b: blend_channel_exec(p.b, target.b, f),
        a: p.a,
    };
    proof {
        if factor == 0 {
            lemma_blend_zero_is_identity(p, target);
        }
        if factor >= BLEND_SCALE {
            lemma_blend_full_is_target(p, target, factor);
        }
    }
    r
}

/// With a factor of zero the blend returns the source pixel itself.
pub proof fn lemma_blend_zero_is_identity(p: Pixel, target: Color)
    ensures
        blend_spec(p, target, 0) == p,
{
    let f = clamp_factor(0);
    assert(f == 0);
    assert((BLEND_SCALE - f) * p.r + f * target.r == 1000 * p.r);
    assert((BLEND_SCALE - f) * p.g + f * target.g == 1000 * p.g);
    assert((BLEND_SCALE - f) * p.b + f * target.b == 1000 * p.b);
    lemma_scaled_div(p.r as int);
    lemma_scaled_div(p.g as int);
    lemma_scaled_div(p.b as int);
}

/// With the full factor (or more, which is clamped) the color channels are
/// exactly the target's and alpha is the source's.
pub proof fn lemma_blend_full_is_target(p: Pixel, target: Color, factor: u32)
    requires
        factor >= BLEND_SCALE,
    ensures
        blend_spec(p, target, factor) == (Pixel { r: target.r, g: target.g, b: target.b, a: p.a }),
{
    let f = clamp_factor(factor);
    assert(f == 1000);
    lemma_scaled_div(target.r as int);
    lemma_scaled_div(target.g as int);
    lemma_scaled_div(target.b as int);
}

proof fn lemma_scaled_div(x: int)
    ensures
        (1000 * x) / 1000 == x,
        (0 * x) == 0,
{
    assert((1000 * x) / 1000 == x) by (nonlinear_arith);
}

/// Every factor leaves alpha as it was.
pub proof fn lemma_blend_keeps_alpha(p: Pixel, target: Color, factor: u32)
    ensures
        blend_spec(p, target, factor).a == p.a,
{
}

} // verus!
