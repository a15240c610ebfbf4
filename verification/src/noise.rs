//! A deterministic coherent-noise field over Q16.16 coordinates.
//!
//! Lattice points carry hashed pseudo-random values in [-1, 1]; between
//! lattice points the field is blended with a smoothstep weight, so the
//! field is continuous. 2D and 3D queries return values in [-1, 1]
//! (Q16.16: [-65536, 65536]) and depend only on the seed and the query
//! point.

use vstd::prelude::*;
use crate::fixed::clamp_s;

verus! {

/// The noise sampler: a pure function of its seed, freely copyable and
/// shareable across draw calls.
#[derive(Clone, Copy, PartialEq, Eq, Structural, Debug)]
pub struct Noise {
    pub seed: u64,
}

/// A 64-bit finalizer: xor-shifts and odd-constant products, so that
/// nearby lattice points get unrelated values.
pub open spec fn mix_s(z: u64) -> u64 {
    let a = (z ^ (z >> 33)).wrapping_mul(0xff51afd7ed558ccd);
    let b = (a ^ (a >> 33)).wrapping_mul(0xc4ceb9fe1a85ec53);
    b ^ (b >> 33)
}

fn mix(z: u64) -> (r: u64)
    ensures
        r == mix_s(z),
{
    let a = (z ^ (z >> 33)).wrapping_mul(0xff51afd7ed558ccd);
    let b = (a ^ (a >> 33)).wrapping_mul(0xc4ceb9fe1a85ec53);
    b ^ (b >> 33)
}

/// A lattice index shifted into the unsigned range, so that negative
/// coordinates hash like positive ones.
pub open spec fn ubias_s(v: int) -> u64 {
    (v + 0x8000_0000_0000_0000) as u64
}

fn ubias(v: i64) -> (r: u64)
    ensures
        r == ubias_s(v as int),
{
    ((v as i128) + 0x8000_0000_0000_0000i128) as u64
}

/// The hash of one 2D lattice point.
pub open spec fn cell2_s(seed: u64, xi: u64, yi: u64) -> u64 {
    mix_s(seed ^ xi.wrapping_mul(0x9e3779b97f4a7c15) ^ yi.wrapping_mul(0xc2b2ae3d27d4eb4f))
}

/// The hash of one 3D lattice point.
pub open spec fn cell3_s(seed: u64, xi: u64, yi: u64, zi: u64) -> u64 {
    mix_s(seed ^ xi.wrapping_mul(0x9e3779b97f4a7c15) ^ yi.wrapping_mul(0xc2b2ae3d27d4eb4f)
        ^ zi.wrapping_mul(0x165667b19e3779f9))
}

/// A hash folded into the value range [-65536, 65536].
pub open spec fn val_s(h: u64) -> int {
    (h % 131073) - 65536
}

/// The field value pinned to a 2D lattice point.
pub open spec fn corner2_s(seed: u64, xi: int, yi: int) -> int {
    val_s(cell2_s(seed, ubias_s(xi), ubias_s(yi)))
}

/// The field value pinned to a 3D lattice point.
pub open spec fn corner3_s(seed: u64, xi: int, yi: int, zi: int) -> int {
    val_s(cell3_s(seed, ubias_s(xi), ubias_s(yi), ubias_s(zi)))
}

fn corner2(seed: u64, xi: i64, yi: i64) -> (r: i64)
    ensures
        r == corner2_s(seed, xi as int, yi as int),
        -65536 <= r <= 65536,
{
    let h = mix(seed ^ ubias(xi).wrapping_mul(0x9e3779b97f4a7c15)
        ^ ubias(yi).wrapping_mul(0xc2b2ae3d27d4eb4f));
    (h % 131073) as i64 - 65536
}

fn corner3(seed: u64, xi: i64, yi: i64, zi: i64) -> (r: i64)
    ensures
        r == corner3_s(seed, xi as int, yi as int, zi as int),
        -65536 <= r <= 65536,
{
    let h = mix(seed ^ ubias(xi).wrapping_mul(0x9e3779b97f4a7c15)
        ^ ubias(yi).wrapping_mul(0xc2b2ae3d27d4eb4f)
        ^ ubias(zi).wrapping_mul(0x165667b19e3779f9));
    (h % 131073) as i64 - 65536
}

/// The smoothstep weight 3t^2 - 2t^3 in Q16.16, kept in [0, 1].
pub open spec fn fade_s(t: int) -> int {
    let t2 = (t * t) / 65536;
    clamp_s((t2 * (196608 - 2 * t)) / 65536, 0, 65536)
}

fn fade(t: i64) -> (r: i64)
    requires
        0 <= t <= 65536,
    ensures
        r == fade_s(t as int),
        0 <= r <= 65536,
{
    proof {
        assert(0 <= t * t <= 65536 * 65536 && 0 <= (t * t) / 65536 <= 65536)
            by (nonlinear_arith)
            requires
                0 <= t as int <= 65536;
    }
    let t2: i64 = (t * t).checked_div_euclid(65536).unwrap();
    proof {
        assert(0 <= t2 * (196608 - 2 * t) <= 196608 * 65536) by (nonlinear_arith)
            requires
                0 <= t2 as int <= 65536,
                0 <= t as int <= 65536;
    }
    let raw: i64 = (t2 * (196608 - 2 * t)).checked_div_euclid(65536).unwrap();
    if raw < 0 {
        0
    } else if raw > 65536 {
        65536
    } else {
        raw
    }
}

/// A linear blend from `a` to `b` with a Q16.16 weight.
pub open spec fn nlerp_s(a: int, b: int, t: int) -> int {
    a + ((b - a) * t) / 65536
}

proof fn lemma_nlerp_in_range(a: int, b: int, t: int)
    by (nonlinear_arith)
    requires
        -65536 <= a <= 65536,
        -65536 <= b <= 65536,
        0 <= t <= 65536,
    ensures
        -65536 <= nlerp_s(a, b, t) <= 65536,
{
    if a <= b {
        assert(0 <= (b - a) * t <= (b - a) * 65536);
        assert(0 <= ((b - a) * t) / 65536 <= b - a);
    } else {
        assert((b - a) * 65536 <= (b - a) * t <= 0);
        assert(b - a <= ((b - a) * t) / 65536 <= 0);
    }
}

fn nlerp(a: i64, b: i64, t: i64) -> (r: i64)
    requires
        -65536 <= a <= 65536,
        -65536 <= b <= 65536,
        0 <= t <= 65536,
    ensures
        r == nlerp_s(a as int, b as int, t as int),
        -65536 <= r <= 65536,
{
    proof {
        assert(-131072 * 65536 <= (b - a) * t <= 131072 * 65536) by (nonlinear_arith)
            requires
                -131072 <= b as int - a as int <= 131072,
                0 <= t as int <= 65536;
        lemma_nlerp_in_range(a as int, b as int, t as int);
    }
    let num: i64 = (b - a) * t;
    a + num.checked_div_euclid(65536).unwrap()
}

/// The whole lattice index of a Q16.16 coordinate.
pub open spec fn cell_of_s(v: int) -> int {
    v / 65536
}

/// The position within the cell, in [0, 65536).
pub open spec fn frac_of_s(v: int) -> int {
    v % 65536
}

fn split_coord(v: i64) -> (r: (i64, i64))
    ensures
        r.0 == cell_of_s(v as int),
        r.1 == frac_of_s(v as int),
        0 <= r.1 < 65536,
        -140737488355328 <= r.0 <= 140737488355328,
{
    let c = v.checked_div_euclid(65536).unwrap();
    let f = v.checked_rem_euclid(65536).unwrap();
    (c, f)
}

/// The 2D field: the four surrounding lattice values blended with
/// smoothstep weights.
pub open spec fn noise2_s(seed: u64, x: i64, y: i64) -> int {
    let xi = cell_of_s(x as int);
    let yi = cell_of_s(y as int);
    let u = fade_s(frac_of_s(x as int));
    let v = fade_s(frac_of_s(y as int));
    nlerp_s(
        nlerp_s(corner2_s(seed, xi, yi), corner2_s(seed, xi + 1, yi), u),
        nlerp_s(corner2_s(seed, xi, yi + 1), corner2_s(seed, xi + 1, yi + 1), u),
        v,
    )
}

/// The 3D field: the eight surrounding lattice values blended with
/// smoothstep weights.
pub open spec fn noise3_s(seed: u64, x: i64, y: i64, z: i64) -> int {
    let xi = cell_of_s(x as int);
    let yi = cell_of_s(y as int);
    let zi = cell_of_s(z as int);
    let u = fade_s(frac_of_s(x as int));
    let v = fade_s(frac_of_s(y as int));
    let w = fade_s(frac_of_s(z as int));
    let near = nlerp_s(
        nlerp_s(corner3_s(seed, xi, yi, zi), corner3_s(seed, xi + 1, yi, zi), u),
        nlerp_s(corner3_s(seed, xi, yi + 1, zi), corner3_s(seed, xi + 1, yi + 1, zi), u),
        v,
    );
    let far = nlerp_s(
        nlerp_s(corner3_s(seed, xi, yi, zi + 1), corner3_s(seed, xi + 1, yi, zi + 1), u),
        nlerp_s(corner3_s(seed, xi, yi + 1, zi + 1), corner3_s(seed, xi + 1, yi + 1, zi + 1), u),
        v,
    );
    nlerp_s(near, far, w)
}

impl Noise {
    pub fn new(seed: u64) -> (n: Noise)
        ensures
            n == (Noise { seed }),
    {
        Noise { seed }
    }

    /// Sample the 2D field at a Q16.16 point; the result lies in [-1, 1].
    pub fn get_noise_2d(&self, x: i64, y: i64) -> (r: i64)
        ensures
            r == noise2_s(self.seed, x, y),
            -65536 <= r <= 65536,
    {
        let (xi, tx) = split_coord(x);
        let (yi, ty) = split_coord(y);
        let v00 = corner2(self.seed, xi, yi);
        let v10 = corner2(self.seed, xi + 1, yi);
        let v01 = corner2(self.seed, xi, yi + 1);
        let v11 = corner2(self.seed, xi + 1, yi + 1);
        let u = fade(tx);
        let v = fade(ty);
        nlerp(nlerp(v00, v10, u), nlerp(v01, v11, u), v)
    }

    /// Sample the 3D field at a Q16.16 point; the result lies in [-1, 1].
    pub fn get_noise_3d(&self, x: i64, y: i64, z: i64) -> (r: i64)
        ensures
            r == noise3_s(self.seed, x, y, z),
            -65536 <= r <= 65536,
    {
        let (xi, tx) = split_coord(x);
        let (yi, ty) = split_coord(y);
        let (zi, tz) = split_coord(z);
        let u = fade(tx);
        let v = fade(ty);
        let w = fade(tz);
        let near = nlerp(
            nlerp(corner3(self.seed, xi, yi, zi), corner3(self.seed, xi + 1, yi, zi), u),
            nlerp(corner3(self.seed, xi, yi + 1, zi), corner3(self.seed, xi + 1, yi + 1, zi), u),
            v,
        );
        let far = nlerp(
            nlerp(corner3(self.seed, xi, yi, zi + 1), corner3(self.seed, xi + 1, yi, zi + 1), u),
            nlerp(
                corner3(self.seed, xi, yi + 1, zi + 1),
                corner3(self.seed, xi + 1, yi + 1, zi + 1),
                u,
            ),
            v,
        );
        nlerp(near, far, w)
    }
}

} // verus!
