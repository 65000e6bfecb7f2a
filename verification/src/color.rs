//! RGB colors with 8-bit channels, blended and scaled in fixed point.

use vstd::prelude::*;
use vstd::arithmetic::div_mod::{lemma_div_is_ordered, lemma_div_multiples_vanish};
use crate::fixed::{div_i128, iabs, tdiv, SCALE};

verus! {

/// An RGB color; each channel runs from 0 to 255.
#[derive(Clone, Copy, Debug, PartialEq, Eq)]
pub struct Color {
    pub r: u8,
    pub g: u8,
    pub b: u8,
}

/// Ghost mirror of `Color`, with unbounded channels.
pub ghost struct ColorI {
    pub r: int,
    pub g: int,
    pub b: int,
}

impl View for Color {
    type V = ColorI;

    open spec fn view(&self) -> ColorI {
        ColorI { r: self.r as int, g: self.g as int, b: self.b as int }
    }
}

/// Clamp a channel value into the valid range 0 to 255.
pub open spec fn clamp255(x: int) -> int {
    if x < 0 {
        0
    } else if x > 255 {
        255
    } else {
        x
    }
}

/// The channel an intensity in `[0, SCALE]` maps to: the intensity times 255,
/// rescaled; intensities outside that range are clamped first.
pub open spec fn channel_of_fixed(x: int) -> int {
    if x <= 0 {
        0
    } else if x >= SCALE {
        255
    } else {
        tdiv(x * 255, SCALE as int)
    }
}

/// Linear interpolation of one channel: start at `c`, move the fraction
/// `t / SCALE` of the way toward `o`; `t` is clamped to `[0, SCALE]`.
pub open spec fn lerp_channel(c: int, o: int, t: int) -> int {
    let tc = if t < 0 {
        0
    } else if t > SCALE {
        SCALE as int
    } else {
        t
    };
    clamp255(c + tdiv((o - c) * tc, SCALE as int))
}

/// Channelwise linear interpolation between two colors.
pub open spec fn spec_lerp(a: ColorI, b: ColorI, t: int) -> ColorI {
    ColorI {
        r: lerp_channel(a.r, b.r, t),
        g: lerp_channel(a.g, b.g, t),
        b: lerp_channel(a.b, b.b, t),
    }
}

/// One channel scaled by a fixed-point factor, clamped to the valid range.
pub open spec fn scale_channel(c: int, f: int) -> int {
    clamp255(tdiv(c * f, SCALE as int))
}

/// A color scaled channelwise by a fixed-point factor.
pub open spec fn spec_scale(a: ColorI, f: int) -> ColorI {
    ColorI { r: scale_channel(a.r, f), g: scale_channel(a.g, f), b: scale_channel(a.b, f) }
}

fn channel_from_fixed(x: i64) -> (c: u8)
    ensures
        c as int == channel_of_fixed(x as int),
{
    if x <= 0 {
        0
    } else if x >= SCALE {
        255
    } else {
        let p: u64 = (x as u64) * 255;
        let q: u64 = p / (SCALE as u64);
        proof {
            lemma_div_multiples_vanish(255, SCALE as int);
            lemma_div_is_ordered(p as int, 255 * (SCALE as int), SCALE as int);
            assert(iabs(p as int) == p as int);
            assert(q as int == tdiv((x as int) * 255, SCALE as int));
        }
        q as u8
    }
}

fn lerp_channel_exec(c: u8, o: u8, t: i64) -> (r: u8)
    ensures
        r as int == lerp_channel(c as int, o as int, t as int),
{
    let tc: i64 = if t < 0 {
        0
    } else if t > SCALE {
        SCALE
    } else {
        t
    };
    let d: i128 = (o as i128) - (c as i128);
    proof {
        assert(-0x10000000000000000 <= (d as int) * (tc as int) <= 0x10000000000000000)
            by (nonlinear_arith)
            requires
                -255 <= d as int <= 255,
                0 <= tc as int <= 1000000,
        ;
    }
    let q: i128 = div_i128(d * (tc as i128), SCALE as i128);
    let v: i128 = (c as i128) + q;
    if v < 0 {
        0
    } else if v > 255 {
        255
    } else {
        v as u8
    }
}

fn scale_channel_exec(c: u8, f: i64) -> (r: u8)
    ensures
        r as int == scale_channel(c as int, f as int),
{
    proof {
        assert(-0x10000000000000000000000 <= (c as int) * (f as int)
            <= 0x10000000000000000000000) by (nonlinear_arith)
            requires
                0 <= c as int <= 255,
                -0x8000000000000000 <= f as int <= 0x7FFFFFFFFFFFFFFF,
        ;
    }
    let p: i128 = (c as i128) * (f as i128);
    let q: i128 = div_i128(p, SCALE as i128);
    if q < 0 {
        0
    } else if q > 255 {
        255
    } else {
        q as u8
    }
}

impl Color {
    /// A color from its three channels.
    pub fn new(r: u8, g: u8, b: u8) -> (c: Color)
        ensures
            c@ == (ColorI { r: r as int, g: g as int, b: b as int }),
    {
        Color { r, g, b }
    }

    /// A color from three fixed-point intensities in `[0, SCALE]`
    /// (out-of-range intensities are clamped).
    pub fn from_fixed(r: i64, g: i64, b: i64) -> (c: Color)
        ensures
            c@ == (ColorI {
                r: channel_of_fixed(r as int),
                g: channel_of_fixed(g as int),
                b: channel_of_fixed(b as int),
            }),
    {
        Color {
            r: channel_from_fixed(r),
            g: channel_from_fixed(g),
            b: channel_from_fixed(b),
        }
    }

    /// Interpolate channelwise from `self` toward `other` by the fixed-point
    /// fraction `t` (clamped to `[0, SCALE]`).
    pub fn lerp(&self, other: &Color, t: i64) -> (c: Color)
        ensures
            c@ == spec_lerp(self@, other@, t as int),
    {
        Color {
            r: lerp_channel_exec(self.r, other.r, t),
            g: lerp_channel_exec(self.g, other.g, t),
            b: lerp_channel_exec(self.b, other.b, t),
        }
    }

    /// Scale each channel by the fixed-point factor `f`, clamping to the
    /// valid range.
    pub fn scaled(&self, f: i64) -> (c: Color)
        ensures
            c@ == spec_scale(self@, f as int),
    {
        Color {
            r: scale_channel_exec(self.r, f),
            g: scale_channel_exec(self.g, f),
            b: scale_channel_exec(self.b, f),
        }
    }
}

/// Interpolating with fraction zero gives the first color back; with
/// fraction one (`SCALE`) it gives the second color back, exactly.
pub proof fn lemma_lerp_endpoints(a: ColorI, b: ColorI)
    requires
        0 <= a.r <= 255,
        0 <= a.g <= 255,
        0 <= a.b <= 255,
        0 <= b.r <= 255,
        0 <= b.g <= 255,
        0 <= b.b <= 255,
    ensures
        spec_lerp(a, b, 0) == a,
        spec_lerp(a, b, SCALE as int) == b,
{
    lemma_lerp_channel_endpoints(a.r, b.r);
    lemma_lerp_channel_endpoints(a.g, b.g);
    lemma_lerp_channel_endpoints(a.b, b.b);
}

proof fn lemma_lerp_channel_endpoints(c: int, o: int)
    requires
        0 <= c <= 255,
        0 <= o <= 255,
    ensures
        lerp_channel(c, o, 0) == c,
        lerp_channel(c, o, SCALE as int) == o,
{
    assert(iabs((o - c) * 0) / iabs(SCALE as int) == 0);
    if o >= c {
        lemma_div_multiples_vanish(o - c, SCALE as int);
        assert(iabs((o - c) * (SCALE as int)) == (o - c) * (SCALE as int));
    } else {
        lemma_div_multiples_vanish(c - o, SCALE as int);
        assert(iabs((o - c) * (SCALE as int)) == (c - o) * (SCALE as int));
    }
}

} // verus!
