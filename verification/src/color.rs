//! RGB colors with 8 bits per channel.
//!
//! All channel math happens in the Q16.16 scale of `crate::fixed` and is
//! clamped into the valid channel range rather than wrapping.

use vstd::prelude::*;
use crate::fixed::clamp_s;

verus! {

#[derive(Clone, Copy, PartialEq, Eq, Structural, Debug)]
pub struct Color {
    pub r: u8,
    pub g: u8,
    pub b: u8,
}

/// One channel of a linear blend from `a` to `b`, with the blend factor
/// clamped to [0, 1] in Q16.16.
pub open spec fn lerp_chan_s(a: int, b: int, t: int) -> int {
    let tc = clamp_s(t, 0, 65536);
    a + ((b - a) * tc) / 65536
}

/// One channel scaled by a Q16.16 factor, clamped to the channel range.
pub open spec fn scale_chan_s(c: int, s: int) -> int {
    clamp_s((c * s) / 65536, 0, 255)
}

/// One channel of a saturating channel-wise sum.
pub open spec fn add_chan_s(a: int, b: int) -> int {
    if a + b > 255 {
        255
    } else {
        a + b
    }
}

/// A Q16.16 fraction in [0, 1] mapped onto the channel range.
pub open spec fn chan_of_fx_s(f: int) -> int {
    clamp_s((f * 255) / 65536, 0, 255)
}

pub open spec fn lerp_s(a: Color, b: Color, t: int) -> Color {
    Color {
        r: lerp_chan_s(a.r as int, b.r as int, t) as u8,
        g: lerp_chan_s(a.g as int, b.g as int, t) as u8,
        b: lerp_chan_s(a.b as int, b.b as int, t) as u8,
    }
}

pub open spec fn scale_color_s(c: Color, s: int) -> Color {
    Color {
        r: scale_chan_s(c.r as int, s) as u8,
        g: scale_chan_s(c.g as int, s) as u8,
        b: scale_chan_s(c.b as int, s) as u8,
    }
}

pub open spec fn add_color_s(a: Color, b: Color) -> Color {
    Color {
        r: add_chan_s(a.r as int, b.r as int) as u8,
        g: add_chan_s(a.g as int, b.g as int) as u8,
        b: add_chan_s(a.b as int, b.b as int) as u8,
    }
}

pub open spec fn to_hex_s(c: Color) -> int {
    c.r as int * 65536 + c.g as int * 256 + c.b as int
}

pub open spec fn from_hex_s(v: int) -> Color {
    Color {
        r: ((v / 65536) % 256) as u8,
        g: ((v / 256) % 256) as u8,
        b: (v % 256) as u8,
    }
}

proof fn lemma_lerp_chan_in_range(a: int, b: int, t: int)
    by (nonlinear_arith)
    requires
        0 <= a <= 255,
        0 <= b <= 255,
    ensures
        0 <= lerp_chan_s(a, b, t) <= 255,
        a <= b ==> a <= lerp_chan_s(a, b, t) <= b,
        b <= a ==> b <= lerp_chan_s(a, b, t) <= a,
{
    let tc = clamp_s(t, 0, 65536);
    if a <= b {
        assert(0 <= (b - a) * tc <= (b - a) * 65536);
        assert(0 <= ((b - a) * tc) / 65536 <= b - a);
    } else {
        assert((a - b) * 65536 <= (a - b) * 65536);
        assert((b - a) * 65536 <= (b - a) * tc <= 0);
        assert(b - a <= ((b - a) * tc) / 65536 <= 0);
    }
}

/// One channel blended toward `b`, computed exactly as `lerp_chan_s` says.
fn lerp_chan(a: u8, b: u8, t: i64) -> (r: u8)
    ensures
        r as int == lerp_chan_s(a as int, b as int, t as int),
{
    let tc: i64 = if t < 0 {
        0
    } else if t > 65536 {
        65536
    } else {
        t
    };
    proof {
        assert(-255 * 65536 <= (b as int - a as int) * tc <= 255 * 65536) by (nonlinear_arith)
            requires
                -255 <= b as int - a as int <= 255,
                0 <= tc as int <= 65536;
    }
    let num: i64 = (b as i64 - a as i64) * tc;
    let q: i64 = num.checked_div_euclid(65536).unwrap();
    proof {
        lemma_lerp_chan_in_range(a as int, b as int, t as int);
    }
    (a as i64 + q) as u8
}

impl Color {
    pub fn new(r: u8, g: u8, b: u8) -> (c: Color)
        ensures
            c == (Color { r, g, b }),
    {
        Color { r, g, b }
    }

    /// The color packed as 0xRRGGBB.
    pub fn to_hex(&self) -> (v: u32)
        ensures
            v as int == to_hex_s(*self),
    {
        self.r as u32 * 65536 + self.g as u32 * 256 + self.b as u32
    }

    /// The channels of a packed 0xRRGGBB value (upper bits are ignored).
    pub fn from_hex(v: u32) -> (c: Color)
        ensures
            c == from_hex_s(v as int),
    {
        Color {
            r: ((v / 65536) % 256) as u8,
            g: ((v / 256) % 256) as u8,
            b: (v % 256) as u8,
        }
    }

    /// A color from Q16.16 fractions in [0, 1] per channel.
    pub fn from_fx(r: i64, g: i64, b: i64) -> (c: Color)
        ensures
            c == (Color {
                r: chan_of_fx_s(r as int) as u8,
                g: chan_of_fx_s(g as int) as u8,
                b: chan_of_fx_s(b as int) as u8,
            }),
    {
        Color { r: chan_of_fx(r), g: chan_of_fx(g), b: chan_of_fx(b) }
    }

    /// Linear blend from `self` toward `other`; the Q16.16 factor is
    /// clamped to [0, 1].
    pub fn lerp(&self, other: &Color, t: i64) -> (c: Color)
        ensures
            c == lerp_s(*self, *other, t as int),
    {
        Color {
            r: lerp_chan(self.r, other.r, t),
            g: lerp_chan(self.g, other.g, t),
            b: lerp_chan(self.b, other.b, t),
        }
    }

    /// Each channel scaled by a Q16.16 factor and clamped to the channel
    /// range.
    pub fn scale(&self, s: i64) -> (c: Color)
        ensures
            c == scale_color_s(*self, s as int),
    {
        Color {
            r: scale_chan(self.r, s),
            g: scale_chan(self.g, s),
            b: scale_chan(self.b, s),
        }
    }

    /// Channel-wise sum, saturating at the channel range.
    pub fn add(&self, other: &Color) -> (c: Color)
        ensures
            c == add_color_s(*self, *other),
    {
        let r: u16 = self.r as u16 + other.r as u16;
        let g: u16 = self.g as u16 + other.g as u16;
        let b: u16 = self.b as u16 + other.b as u16;
        Color {
            r: if r > 255 { 255 } else { r as u8 },
            g: if g > 255 { 255 } else { g as u8 },
            b: if b > 255 { 255 } else { b as u8 },
        }
    }
}

fn scale_chan(c: u8, s: i64) -> (r: u8)
    ensures
        r as int == scale_chan_s(c as int, s as int),
{
    proof {
        assert(i128::MIN < (c as int) * (s as int) < i128::MAX) by (nonlinear_arith)
            requires
                0 <= c as int <= 255,
                i64::MIN <= s as int <= i64::MAX;
    }
    let p: i128 = (c as i128) * (s as i128);
    let q: i128 = p.checked_div_euclid(65536).unwrap();
    if q < 0 {
        0
    } else if q > 255 {
        255
    } else {
        q as u8
    }
}

fn chan_of_fx(f: i64) -> (r: u8)
    ensures
        r as int == chan_of_fx_s(f as int),
{
    proof {
        assert(i128::MIN < (f as int) * 255 < i128::MAX) by (nonlinear_arith)
            requires
                i64::MIN <= f as int <= i64::MAX;
    }
    let p: i128 = (f as i128) * 255;
    let q: i128 = p.checked_div_euclid(65536).unwrap();
    if q < 0 {
        0
    } else if q > 255 {
        255
    } else {
        q as u8
    }
}

/// Packing a color and unpacking it again gives the color back.
pub proof fn lemma_hex_round_trip(c: Color)
    ensures
        from_hex_s(to_hex_s(c)) == c,
{
    let v = to_hex_s(c);
    assert((c.r as int * 65536 + c.g as int * 256 + c.b as int) / 65536 == c.r as int
        && ((c.r as int * 65536 + c.g as int * 256 + c.b as int) / 256) % 256
            == (c.g as int * 256 + c.b as int) / 256
        && (c.r as int * 65536 + c.g as int * 256 + c.b as int) % 256 == c.b as int)
        by (nonlinear_arith)
        requires
            0 <= c.r as int <= 255,
            0 <= c.g as int <= 255,
            0 <= c.b as int <= 255;
    assert((c.g as int * 256 + c.b as int) / 256 == c.g as int) by (nonlinear_arith)
        requires
            0 <= c.g as int <= 255,
            0 <= c.b as int <= 255;
}

} // verus!
