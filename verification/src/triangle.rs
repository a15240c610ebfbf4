//! The rasterizer: one transformed triangle becomes the finite sequence of
//! covered pixels (fragments) with barycentric-interpolated attributes.
//!
//! Coverage is edge-inclusive: a pixel is covered exactly when all three
//! barycentric weights are non-negative, under one fixed orientation.
//! Pixels are visited row-major inside the triangle's bounding box clamped
//! to the framebuffer extent, so off-screen geometry costs nothing and a
//! degenerate (zero-area) triangle yields no fragments at all.

use vstd::prelude::*;
use vstd::arithmetic::div_mod::{lemma_div_is_ordered, lemma_div_multiples_vanish};
use crate::color::Color;
use crate::fragment::Fragment;
use crate::vecmat::FxVec3;
use crate::vertex::Vertex;

verus! {

/// Largest screen coordinate (Q16.16) the rasterizer accepts: 2^36, about
/// a million pixels out.
pub const RASTER_COORD_LIM: i64 = 0x10_0000_0000;

/// Largest interpolated attribute magnitude (Q16.16) the rasterizer
/// accepts: 2^40.
pub const RASTER_ATTR_LIM: i64 = 0x100_0000_0000;

/// Largest framebuffer extent the rasterizer accepts: 2^20 pixels.
pub const RASTER_EXTENT_LIM: usize = 0x10_0000;

/// The vertex's integer pixel column on screen.
pub open spec fn sx_s(v: Vertex) -> int {
    v.transformed_position.x as int / 65536
}

/// The vertex's integer pixel row on screen.
pub open spec fn sy_s(v: Vertex) -> int {
    v.transformed_position.y as int / 65536
}

/// A vertex the rasterizer can take: screen position and interpolated
/// attributes inside the fixed-point working range.
pub open spec fn raster_ok_s(v: Vertex) -> bool {
    &&& -RASTER_COORD_LIM <= v.transformed_position.x <= RASTER_COORD_LIM
    &&& -RASTER_COORD_LIM <= v.transformed_position.y <= RASTER_COORD_LIM
    &&& -RASTER_ATTR_LIM <= v.transformed_position.z <= RASTER_ATTR_LIM
    &&& -RASTER_ATTR_LIM <= v.transformed_normal.x <= RASTER_ATTR_LIM
    &&& -RASTER_ATTR_LIM <= v.transformed_normal.y <= RASTER_ATTR_LIM
    &&& -RASTER_ATTR_LIM <= v.transformed_normal.z <= RASTER_ATTR_LIM
    &&& -RASTER_ATTR_LIM <= v.position.x <= RASTER_ATTR_LIM
    &&& -RASTER_ATTR_LIM <= v.position.y <= RASTER_ATTR_LIM
    &&& -RASTER_ATTR_LIM <= v.position.z <= RASTER_ATTR_LIM
}

/// Whether the rasterizer can take this vertex.
pub fn raster_ok(v: &Vertex) -> (r: bool)
    ensures
        r == raster_ok_s(*v),
{
    -RASTER_COORD_LIM <= v.transformed_position.x && v.transformed_position.x <= RASTER_COORD_LIM
        && -RASTER_COORD_LIM <= v.transformed_position.y
        && v.transformed_position.y <= RASTER_COORD_LIM
        && -RASTER_ATTR_LIM <= v.transformed_position.z
        && v.transformed_position.z <= RASTER_ATTR_LIM
        && -RASTER_ATTR_LIM <= v.transformed_normal.x && v.transformed_normal.x <= RASTER_ATTR_LIM
        && -RASTER_ATTR_LIM <= v.transformed_normal.y && v.transformed_normal.y <= RASTER_ATTR_LIM
        && -RASTER_ATTR_LIM <= v.transformed_normal.z && v.transformed_normal.z <= RASTER_ATTR_LIM
        && -RASTER_ATTR_LIM <= v.position.x && v.position.x <= RASTER_ATTR_LIM
        && -RASTER_ATTR_LIM <= v.position.y && v.position.y <= RASTER_ATTR_LIM
        && -RASTER_ATTR_LIM <= v.position.z && v.position.z <= RASTER_ATTR_LIM
}

/// The signed edge function: twice the signed area of the triangle
/// (a, b, p).
pub open spec fn edge_s(ax: int, ay: int, bx: int, by: int, px: int, py: int) -> int {
    (bx - ax) * (py - ay) - (by - ay) * (px - ax)
}

/// Twice the triangle's signed area in pixel coordinates.
pub open spec fn area2_s(v0: Vertex, v1: Vertex, v2: Vertex) -> int {
    edge_s(sx_s(v0), sy_s(v0), sx_s(v1), sy_s(v1), sx_s(v2), sy_s(v2))
}

/// Twice the unsigned area.
pub open spec fn an_s(v0: Vertex, v1: Vertex, v2: Vertex) -> int {
    if area2_s(v0, v1, v2) >= 0 {
        area2_s(v0, v1, v2)
    } else {
        -area2_s(v0, v1, v2)
    }
}

/// Barycentric weight of v0 at pixel (px, py), oriented so that covered
/// pixels have non-negative weights.
pub open spec fn w0_s(v0: Vertex, v1: Vertex, v2: Vertex, px: int, py: int) -> int {
    let e = edge_s(sx_s(v1), sy_s(v1), sx_s(v2), sy_s(v2), px, py);
    if area2_s(v0, v1, v2) >= 0 {
        e
    } else {
        -e
    }
}

/// Barycentric weight of v1 at pixel (px, py).
pub open spec fn w1_s(v0: Vertex, v1: Vertex, v2: Vertex, px: int, py: int) -> int {
    let e = edge_s(sx_s(v2), sy_s(v2), sx_s(v0), sy_s(v0), px, py);
    if area2_s(v0, v1, v2) >= 0 {
        e
    } else {
        -e
    }
}

/// Barycentric weight of v2 at pixel (px, py).
pub open spec fn w2_s(v0: Vertex, v1: Vertex, v2: Vertex, px: int, py: int) -> int {
    let e = edge_s(sx_s(v0), sy_s(v0), sx_s(v1), sy_s(v1), px, py);
    if area2_s(v0, v1, v2) >= 0 {
        e
    } else {
        -e
    }
}

/// Edge-inclusive coverage: all three weights non-negative.
pub open spec fn covered_s(v0: Vertex, v1: Vertex, v2: Vertex, px: int, py: int) -> bool {
    w0_s(v0, v1, v2, px, py) >= 0 && w1_s(v0, v1, v2, px, py) >= 0 && w2_s(
        v0,
        v1,
        v2,
        px,
        py,
    ) >= 0
}

/// The barycentric blend of one attribute, rounded toward negative
/// infinity.
pub open spec fn interp_s(w0: int, w1: int, w2: int, an: int, a0: int, a1: int, a2: int) -> int {
    (w0 * a0 + w1 * a1 + w2 * a2) / an
}

/// The fragment the triangle produces at pixel (px, py): the pixel's
/// integer position, and depth, normal, reference position and color as
/// barycentric blends of the three vertices.
pub open spec fn frag_at_s(v0: Vertex, v1: Vertex, v2: Vertex, px: int, py: int) -> Fragment {
    let w0 = w0_s(v0, v1, v2, px, py);
    let w1 = w1_s(v0, v1, v2, px, py);
    let w2 = w2_s(v0, v1, v2, px, py);
    let an = an_s(v0, v1, v2);
    Fragment {
        x: px as usize,
        y: py as usize,
        color: Color {
            r: interp_s(w0, w1, w2, an, v0.color.r as int, v1.color.r as int, v2.color.r as int) as u8,
            g: interp_s(w0, w1, w2, an, v0.color.g as int, v1.color.g as int, v2.color.g as int) as u8,
            b: interp_s(w0, w1, w2, an, v0.color.b as int, v1.color.b as int, v2.color.b as int) as u8,
        },
        depth: interp_s(
            w0,
            w1,
            w2,
            an,
            v0.transformed_position.z as int,
            v1.transformed_position.z as int,
            v2.transformed_position.z as int,
        ) as i64,
        normal: FxVec3 {
            x: interp_s(
                w0,
                w1,
                w2,
                an,
                v0.transformed_normal.x as int,
                v1.transformed_normal.x as int,
                v2.transformed_normal.x as int,
            ) as i64,
            y: interp_s(
                w0,
                w1,
                w2,
                an,
                v0.transformed_normal.y as int,
                v1.transformed_normal.y as int,
                v2.transformed_normal.y as int,
            ) as i64,
            z: interp_s(
                w0,
                w1,
                w2,
                an,
                v0.transformed_normal.z as int,
                v1.transformed_normal.z as int,
                v2.transformed_normal.z as int,
            ) as i64,
        },
        intensity: 0,
        vertex_position: FxVec3 {
            x: interp_s(
                w0,
                w1,
                w2,
                an,
                v0.position.x as int,
                v1.position.x as int,
                v2.position.x as int,
            ) as i64,
            y: interp_s(
                w0,
                w1,
                w2,
                an,
                v0.position.y as int,
                v1.position.y as int,
                v2.position.y as int,
            ) as i64,
            z: interp_s(
                w0,
                w1,
                w2,
                an,
                v0.position.z as int,
                v1.position.z as int,
                v2.position.z as int,
            ) as i64,
        },
    }
}

/// The fragments one pixel contributes: one if covered, none otherwise.
pub open spec fn cell_s(v0: Vertex, v1: Vertex, v2: Vertex, px: int, py: int) -> Seq<Fragment> {
    if covered_s(v0, v1, v2, px, py) {
        seq![frag_at_s(v0, v1, v2, px, py)]
    } else {
        Seq::empty()
    }
}

/// The fragments of one pixel row, columns xmin..=xmax.
pub open spec fn row_frags_s(
    v0: Vertex,
    v1: Vertex,
    v2: Vertex,
    py: int,
    xmin: int,
    xmax: int,
) -> Seq<Fragment>
    decreases xmax + 1 - xmin,
{
    if xmax < xmin {
        Seq::empty()
    } else {
        row_frags_s(v0, v1, v2, py, xmin, xmax - 1) + cell_s(v0, v1, v2, xmax, py)
    }
}

/// The fragments of the rows ymin..=ymax, row-major.
pub open spec fn rows_frags_s(
    v0: Vertex,
    v1: Vertex,
    v2: Vertex,
    xmin: int,
    xmax: int,
    ymin: int,
    ymax: int,
) -> Seq<Fragment>
    decreases ymax + 1 - ymin,
{
    if ymax < ymin {
        Seq::empty()
    } else {
        rows_frags_s(v0, v1, v2, xmin, xmax, ymin, ymax - 1) + row_frags_s(
            v0,
            v1,
            v2,
            ymax,
            xmin,
            xmax,
        )
    }
}

pub open spec fn imin_s(a: int, b: int) -> int {
    if a <= b {
        a
    } else {
        b
    }
}

pub open spec fn imax_s(a: int, b: int) -> int {
    if a >= b {
        a
    } else {
        b
    }
}

pub open spec fn imin3_s(a: int, b: int, c: int) -> int {
    imin_s(imin_s(a, b), c)
}

pub open spec fn imax3_s(a: int, b: int, c: int) -> int {
    imax_s(imax_s(a, b), c)
}

/// The clamped-left column of the triangle's bounding box.
pub open spec fn bbox_xmin_s(v0: Vertex, v1: Vertex, v2: Vertex) -> int {
    imax_s(imin3_s(sx_s(v0), sx_s(v1), sx_s(v2)), 0)
}

pub open spec fn bbox_xmax_s(v0: Vertex, v1: Vertex, v2: Vertex, width: int) -> int {
    imin_s(imax3_s(sx_s(v0), sx_s(v1), sx_s(v2)), width - 1)
}

pub open spec fn bbox_ymin_s(v0: Vertex, v1: Vertex, v2: Vertex) -> int {
    imax_s(imin3_s(sy_s(v0), sy_s(v1), sy_s(v2)), 0)
}

pub open spec fn bbox_ymax_s(v0: Vertex, v1: Vertex, v2: Vertex, height: int) -> int {
    imin_s(imax3_s(sy_s(v0), sy_s(v1), sy_s(v2)), height - 1)
}

/// Everything the rasterizer emits for one triangle: nothing when the
/// signed area is zero, else the covered pixels of the clamped bounding
/// box, row-major, each with its interpolated fragment.
pub open spec fn raster_s(
    v0: Vertex,
    v1: Vertex,
    v2: Vertex,
    width: int,
    height: int,
) -> Seq<Fragment> {
    if area2_s(v0, v1, v2) == 0 {
        Seq::empty()
    } else {
        rows_frags_s(
            v0,
            v1,
            v2,
            bbox_xmin_s(v0, v1, v2),
            bbox_xmax_s(v0, v1, v2, width),
            bbox_ymin_s(v0, v1, v2),
            bbox_ymax_s(v0, v1, v2, height),
        )
    }
}

/// One edge function expanded into monomials.
proof fn lemma_expand_edge(ax: int, ay: int, bx: int, by: int, px: int, py: int)
    by (nonlinear_arith)
    ensures
        (bx - ax) * (py - ay) - (by - ay) * (px - ax) == bx * py - bx * ay - ax * py - by * px
            + by * ax + ay * px,
{
}

/// The edge functions of the three sides sum to twice the signed area,
/// wherever they are evaluated.
proof fn lemma_edge_sum_raw(
    x0: int,
    y0: int,
    x1: int,
    y1: int,
    x2: int,
    y2: int,
    px: int,
    py: int,
)
    ensures
        ((x2 - x1) * (py - y1) - (y2 - y1) * (px - x1)) + ((x0 - x2) * (py - y2) - (y0 - y2) * (px
            - x2)) + ((x1 - x0) * (py - y0) - (y1 - y0) * (px - x0)) == (x1 - x0) * (y2 - y0) - (y1
            - y0) * (x2 - x0),
{
    broadcast use vstd::arithmetic::mul::lemma_mul_is_commutative;

    lemma_expand_edge(x1, y1, x2, y2, px, py);
    lemma_expand_edge(x2, y2, x0, y0, px, py);
    lemma_expand_edge(x0, y0, x1, y1, px, py);
    lemma_expand_edge(x0, y0, x1, y1, x2, y2);
}

/// The three oriented weights at any pixel sum to twice the unsigned area.
pub proof fn lemma_weight_sum(v0: Vertex, v1: Vertex, v2: Vertex, px: int, py: int)
    ensures
        w0_s(v0, v1, v2, px, py) + w1_s(v0, v1, v2, px, py) + w2_s(v0, v1, v2, px, py) == an_s(
            v0,
            v1,
            v2,
        ),
{
    lemma_edge_sum_raw(sx_s(v0), sy_s(v0), sx_s(v1), sy_s(v1), sx_s(v2), sy_s(v2), px, py);
}

/// The pixel row or column of a screen coordinate within the working
/// range.
fn pixel_of(c: i64) -> (r: i64)
    requires
        -RASTER_COORD_LIM <= c <= RASTER_COORD_LIM,
    ensures
        r == c as int / 65536,
        -0x10_0000 <= r <= 0x10_0000,
{
    proof {
        lemma_div_is_ordered(-0x10_0000_0000, c as int, 65536);
        lemma_div_is_ordered(c as int, 0x10_0000_0000, 65536);
        assert((-0x10_0000_0000int) / 65536 == -0x10_0000);
        assert(0x10_0000_0000int / 65536 == 0x10_0000);
    }
    c.checked_div_euclid(65536).unwrap()
}

/// The edge function evaluated in machine integers.
fn edge_i(ax: i64, ay: i64, bx: i64, by: i64, px: i64, py: i64) -> (r: i64)
    requires
        -0x10_0000 <= ax <= 0x10_0000,
        -0x10_0000 <= ay <= 0x10_0000,
        -0x10_0000 <= bx <= 0x10_0000,
        -0x10_0000 <= by <= 0x10_0000,
        -0x10_0000 <= px <= 0x10_0000,
        -0x10_0000 <= py <= 0x10_0000,
    ensures
        r == edge_s(ax as int, ay as int, bx as int, by as int, px as int, py as int),
        -0x2000_0000_0000 <= r <= 0x2000_0000_0000,
{
    proof {
        assert((bx - ax) * (py - ay) <= 0x1000_0000_0000 && (bx - ax) * (py - ay)
            >= -0x1000_0000_0000 && (by - ay) * (px - ax) <= 0x1000_0000_0000 && (by - ay) * (px
            - ax) >= -0x1000_0000_0000) by (nonlinear_arith)
            requires
                -0x200000 <= bx - ax <= 0x200000,
                -0x200000 <= py - ay <= 0x200000,
                -0x200000 <= by - ay <= 0x200000,
                -0x200000 <= px - ax <= 0x200000;
    }
    (bx - ax) * (py - ay) - (by - ay) * (px - ax)
}

/// A blend of values between lo and hi with weights summing to the
/// divisor stays between lo and hi.
proof fn lemma_convex_bounds(w0: int, w1: int, w2: int, an: int, a0: int, a1: int, a2: int, lo: int, hi: int)
    by (nonlinear_arith)
    requires
        w0 >= 0,
        w1 >= 0,
        w2 >= 0,
        w0 + w1 + w2 == an,
        an > 0,
        lo <= a0 <= hi,
        lo <= a1 <= hi,
        lo <= a2 <= hi,
    ensures
        an * lo <= w0 * a0 + w1 * a1 + w2 * a2 <= an * hi,
{
    assert(w0 * lo <= w0 * a0 <= w0 * hi);
    assert(w1 * lo <= w1 * a1 <= w1 * hi);
    assert(w2 * lo <= w2 * a2 <= w2 * hi);
    assert((w0 + w1 + w2) * lo == w0 * lo + w1 * lo + w2 * lo);
    assert((w0 + w1 + w2) * hi == w0 * hi + w1 * hi + w2 * hi);
}

/// The barycentric blend of one attribute; the result stays between the
/// smallest and largest of the three values.
fn interp(w0: i64, w1: i64, w2: i64, an: i64, a0: i64, a1: i64, a2: i64) -> (r: i64)
    requires
        w0 >= 0,
        w1 >= 0,
        w2 >= 0,
        w0 + w1 + w2 == an,
        0 < an <= 0x4000_0000_0000,
        -RASTER_ATTR_LIM <= a0 <= RASTER_ATTR_LIM,
        -RASTER_ATTR_LIM <= a1 <= RASTER_ATTR_LIM,
        -RASTER_ATTR_LIM <= a2 <= RASTER_ATTR_LIM,
    ensures
        r == interp_s(w0 as int, w1 as int, w2 as int, an as int, a0 as int, a1 as int, a2 as int),
        imin3_s(a0 as int, a1 as int, a2 as int) <= r <= imax3_s(a0 as int, a1 as int, a2 as int),
{
    let ghost lo = imin3_s(a0 as int, a1 as int, a2 as int);
    let ghost hi = imax3_s(a0 as int, a1 as int, a2 as int);
    proof {
        assert(w0 * a0 <= 0x4000_0000_0000 * 0x100_0000_0000 && w0 * a0 >= -(
        0x4000_0000_0000 * 0x100_0000_0000) && w1 * a1 <= 0x4000_0000_0000 * 0x100_0000_0000 && w1
            * a1 >= -(0x4000_0000_0000 * 0x100_0000_0000) && w2 * a2 <= 0x4000_0000_0000
            * 0x100_0000_0000 && w2 * a2 >= -(0x4000_0000_0000 * 0x100_0000_0000))
            by (nonlinear_arith)
            requires
                0 <= w0 <= 0x4000_0000_0000,
                0 <= w1 <= 0x4000_0000_0000,
                0 <= w2 <= 0x4000_0000_0000,
                -0x100_0000_0000 <= a0 <= 0x100_0000_0000,
                -0x100_0000_0000 <= a1 <= 0x100_0000_0000,
                -0x100_0000_0000 <= a2 <= 0x100_0000_0000;
        lemma_convex_bounds(
            w0 as int,
            w1 as int,
            w2 as int,
            an as int,
            a0 as int,
            a1 as int,
            a2 as int,
            lo,
            hi,
        );
    }
    let num: i128 = (w0 as i128) * (a0 as i128) + (w1 as i128) * (a1 as i128) + (w2 as i128) * (
    a2 as i128);
    proof {
        lemma_div_is_ordered(an as int * lo, num as int, an as int);
        lemma_div_is_ordered(num as int, an as int * hi, an as int);
        lemma_div_multiples_vanish(lo, an as int);
        lemma_div_multiples_vanish(hi, an as int);
    }
    let q: i128 = num.checked_div_euclid(an as i128).unwrap();
    q as i64
}

/// Rasterize one triangle: the covered pixels of the clamped bounding
/// box, row-major, with interpolated attributes; empty when the triangle
/// is degenerate.
#[verifier::loop_isolation(false)]
pub fn triangle(v0: &Vertex, v1: &Vertex, v2: &Vertex, width: usize, height: usize) -> (frags: Vec<
    Fragment,
>)
    requires
        raster_ok_s(*v0),
        raster_ok_s(*v1),
        raster_ok_s(*v2),
        width <= RASTER_EXTENT_LIM,
        height <= RASTER_EXTENT_LIM,
    ensures
        frags@ == raster_s(*v0, *v1, *v2, width as int, height as int),
        area2_s(*v0, *v1, *v2) == 0 ==> frags@.len() == 0,
{
    let x0 = pixel_of(v0.transformed_position.x);
    let y0 = pixel_of(v0.transformed_position.y);
    let x1 = pixel_of(v1.transformed_position.x);
    let y1 = pixel_of(v1.transformed_position.y);
    let x2 = pixel_of(v2.transformed_position.x);
    let y2 = pixel_of(v2.transformed_position.y);
    let a2 = edge_i(x0, y0, x1, y1, x2, y2);
    if a2 == 0 {
        let frags: Vec<Fragment> = Vec::new();
        proof {
            assert(frags@ =~= raster_s(*v0, *v1, *v2, width as int, height as int));
        }
        return frags;
    }
    let an: i64 = if a2 > 0 {
        a2
    } else {
        -a2
    };
    let xmin: i64 = {
        let m = imin3_i(x0, x1, x2);
        if m < 0 {
            0
        } else {
            m
        }
    };
    let xmax: i64 = {
        let m = imax3_i(x0, x1, x2);
        if m > width as i64 - 1 {
            width as i64 - 1
        } else {
            m
        }
    };
    let ymin: i64 = {
        let m = imin3_i(y0, y1, y2);
        if m < 0 {
            0
        } else {
            m
        }
    };
    let ymax: i64 = {
        let m = imax3_i(y0, y1, y2);
        if m > height as i64 - 1 {
            height as i64 - 1
        } else {
            m
        }
    };
    let mut frags: Vec<Fragment> = Vec::new();
    proof {
        assert(frags@ =~= rows_frags_s(*v0, *v1, *v2, xmin as int, xmax as int, ymin as int, ymin - 1));
    }
    let mut py: i64 = ymin;
    while py <= ymax
        invariant
            ymin <= py <= imax_s(ymax as int + 1, ymin as int),
            frags@ == rows_frags_s(*v0, *v1, *v2, xmin as int, xmax as int, ymin as int, py - 1),
        decreases ymax + 1 - py,
    {
        let ghost frags_row_base = frags@;
        let mut px: i64 = xmin;
        proof {
            assert(frags@ =~= frags_row_base + row_frags_s(*v0, *v1, *v2, py as int, xmin as int, xmin - 1));
        }
        while px <= xmax
            invariant
                xmin <= px <= imax_s(xmax as int + 1, xmin as int),
                ymin <= py <= ymax,
                frags@ == frags_row_base + row_frags_s(
                    *v0,
                    *v1,
                    *v2,
                    py as int,
                    xmin as int,
                    px - 1,
                ),
            decreases xmax + 1 - px,
        {
            let e0 = edge_i(x1, y1, x2, y2, px, py);
            let e1 = edge_i(x2, y2, x0, y0, px, py);
            let e2 = edge_i(x0, y0, x1, y1, px, py);
            let w0: i64 = if a2 > 0 {
                e0
            } else {
                -e0
            };
            let w1: i64 = if a2 > 0 {
                e1
            } else {
                -e1
            };
            let w2: i64 = if a2 > 0 {
                e2
            } else {
                -e2
            };
            proof {
                lemma_weight_sum(*v0, *v1, *v2, px as int, py as int);
            }
            if w0 >= 0 && w1 >= 0 && w2 >= 0 {
                let depth = interp(
                    w0,
                    w1,
                    w2,
                    an,
                    v0.transformed_position.z,
                    v1.transformed_position.z,
                    v2.transformed_position.z,
                );
                let nx = interp(
                    w0,
                    w1,
                    w2,
                    an,
                    v0.transformed_normal.x,
                    v1.transformed_normal.x,
                    v2.transformed_normal.x,
                );
                let ny = interp(
                    w0,
                    w1,
                    w2,
                    an,
                    v0.transformed_normal.y,
                    v1.transformed_normal.y,
                    v2.transformed_normal.y,
                );
                let nz = interp(
                    w0,
                    w1,
                    w2,
                    an,
                    v0.transformed_normal.z,
                    v1.transformed_normal.z,
                    v2.transformed_normal.z,
                );
                let vx = interp(w0, w1, w2, an, v0.position.x, v1.position.x, v2.position.x);
                let vy = interp(w0, w1, w2, an, v0.position.y, v1.position.y, v2.position.y);
                let vz = interp(w0, w1, w2, an, v0.position.z, v1.position.z, v2.position.z);
                let cr = interp(
                    w0,
                    w1,
                    w2,
                    an,
                    v0.color.r as i64,
                    v1.color.r as i64,
                    v2.color.r as i64,
                );
                let cg = interp(
                    w0,
                    w1,
                    w2,
                    an,
                    v0.color.g as i64,
                    v1.color.g as i64,
                    v2.color.g as i64,
                );
                let cb = interp(
                    w0,
                    w1,
                    w2,
                    an,
                    v0.color.b as i64,
                    v1.color.b as i64,
                    v2.color.b as i64,
                );
                let f = Fragment {
                    x: px as usize,
                    y: py as usize,
                    color: Color { r: cr as u8, g: cg as u8, b: cb as u8 },
                    depth,
                    normal: FxVec3 { x: nx, y: ny, z: nz },
                    intensity: 0,
                    vertex_position: FxVec3 { x: vx, y: vy, z: vz },
                };
                proof {
                    assert(f == frag_at_s(*v0, *v1, *v2, px as int, py as int));
                }
                frags.push(f);
                proof {
                    assert(frags@ =~= frags_row_base + row_frags_s(
                        *v0,
                        *v1,
                        *v2,
                        py as int,
                        xmin as int,
                        px as int,
                    ));
                }
            } else {
                proof {
                    assert(frags@ =~= frags_row_base + row_frags_s(
                        *v0,
                        *v1,
                        *v2,
                        py as int,
                        xmin as int,
                        px as int,
                    ));
                }
            }
            px += 1;
        }
        proof {
            assert(frags@ =~= rows_frags_s(
                *v0,
                *v1,
                *v2,
                xmin as int,
                xmax as int,
                ymin as int,
                py as int,
            ));
        }
        py += 1;
    }
    proof {
        assert(frags@ =~= raster_s(*v0, *v1, *v2, width as int, height as int));
    }
    frags
}

/// A triangle whose three screen points are collinear (zero signed area)
/// rasterizes to the empty fragment stream.
pub proof fn lemma_degenerate_empty(v0: Vertex, v1: Vertex, v2: Vertex, width: int, height: int)
    requires
        area2_s(v0, v1, v2) == 0,
    ensures
        raster_s(v0, v1, v2, width, height) == Seq::<Fragment>::empty(),
{
}

/// Dividing an exact multiple of a positive divisor gives the factor
/// back, stated for a weight triple that puts all weight on one value.
proof fn lemma_exact_attr(an: int, a0: int, a1: int, a2: int)
    requires
        an > 0,
    ensures
        interp_s(an, 0, 0, an, a0, a1, a2) == a0,
{
    assert(an * a0 + 0 * a1 + 0 * a2 == an * a0) by (nonlinear_arith);
    lemma_div_multiples_vanish(a0, an);
}

/// Barycentric interpolation is exact at a vertex: at v0's own screen
/// pixel the fragment carries v0's depth, normal, reference position and
/// color, and that pixel is covered.
pub proof fn lemma_frag_exact_at_vertex(v0: Vertex, v1: Vertex, v2: Vertex)
    requires
        area2_s(v0, v1, v2) != 0,
    ensures
        covered_s(v0, v1, v2, sx_s(v0), sy_s(v0)),
        frag_at_s(v0, v1, v2, sx_s(v0), sy_s(v0)).depth == v0.transformed_position.z,
        frag_at_s(v0, v1, v2, sx_s(v0), sy_s(v0)).normal == v0.transformed_normal,
        frag_at_s(v0, v1, v2, sx_s(v0), sy_s(v0)).vertex_position == v0.position,
        frag_at_s(v0, v1, v2, sx_s(v0), sy_s(v0)).color == v0.color,
{
    let x0 = sx_s(v0);
    let y0 = sy_s(v0);
    let x1 = sx_s(v1);
    let y1 = sy_s(v1);
    let x2 = sx_s(v2);
    let y2 = sy_s(v2);
    assert((x0 - x2) * (y0 - y2) - (y0 - y2) * (x0 - x2) == 0) by (nonlinear_arith);
    assert((x1 - x0) * (y0 - y0) - (y1 - y0) * (x0 - x0) == 0) by (nonlinear_arith);
    assert(w1_s(v0, v1, v2, x0, y0) == 0);
    assert(w2_s(v0, v1, v2, x0, y0) == 0);
    lemma_weight_sum(v0, v1, v2, x0, y0);
    let an = an_s(v0, v1, v2);
    assert(an > 0);
    assert(w0_s(v0, v1, v2, x0, y0) == an);
    lemma_exact_attr(an, v0.transformed_position.z as int, v1.transformed_position.z as int, v2.transformed_position.z as int);
    lemma_exact_attr(an, v0.transformed_normal.x as int, v1.transformed_normal.x as int, v2.transformed_normal.x as int);
    lemma_exact_attr(an, v0.transformed_normal.y as int, v1.transformed_normal.y as int, v2.transformed_normal.y as int);
    lemma_exact_attr(an, v0.transformed_normal.z as int, v1.transformed_normal.z as int, v2.transformed_normal.z as int);
    lemma_exact_attr(an, v0.position.x as int, v1.position.x as int, v2.position.x as int);
    lemma_exact_attr(an, v0.position.y as int, v1.position.y as int, v2.position.y as int);
    lemma_exact_attr(an, v0.position.z as int, v1.position.z as int, v2.position.z as int);
    lemma_exact_attr(an, v0.color.r as int, v1.color.r as int, v2.color.r as int);
    lemma_exact_attr(an, v0.color.g as int, v1.color.g as int, v2.color.g as int);
    lemma_exact_attr(an, v0.color.b as int, v1.color.b as int, v2.color.b as int);
}

/// The barycentric identity with the first vertex at the origin: the
/// edge-weighted sums of the other two vertices recover the pixel, scaled
/// by the signed area.
#[verifier::rlimit(100)]
proof fn lemma_bary_rel(x1: int, y1: int, x2: int, y2: int, px: int, py: int)
    by (nonlinear_arith)
    ensures
        (y2 * px - x2 * py) * x1 + (x1 * py - y1 * px) * x2 == (x1 * y2 - y1 * x2) * px,
        (y2 * px - x2 * py) * y1 + (x1 * py - y1 * px) * y2 == (x1 * y2 - y1 * x2) * py,
{
}

/// From an*lo <= an*v <= an*hi with an > 0 follows lo <= v <= hi.
proof fn lemma_cancel_factor(an: int, v: int, lo: int, hi: int)
    by (nonlinear_arith)
    requires
        an > 0,
        an * lo <= an * v <= an * hi,
    ensures
        lo <= v <= hi,
{
}

/// A covered pixel of a non-degenerate triangle lies inside the
/// triangle's pixel bounding box.
pub proof fn lemma_covered_in_bbox(v0: Vertex, v1: Vertex, v2: Vertex, px: int, py: int)
    requires
        area2_s(v0, v1, v2) != 0,
        covered_s(v0, v1, v2, px, py),
    ensures
        imin3_s(sx_s(v0), sx_s(v1), sx_s(v2)) <= px <= imax3_s(sx_s(v0), sx_s(v1), sx_s(v2)),
        imin3_s(sy_s(v0), sy_s(v1), sy_s(v2)) <= py <= imax3_s(sy_s(v0), sy_s(v1), sy_s(v2)),
{
    let x0 = sx_s(v0);
    let y0 = sy_s(v0);
    let x1 = sx_s(v1);
    let y1 = sy_s(v1);
    let x2 = sx_s(v2);
    let y2 = sy_s(v2);
    let w0 = w0_s(v0, v1, v2, px, py);
    let w1 = w1_s(v0, v1, v2, px, py);
    let w2 = w2_s(v0, v1, v2, px, py);
    let an = an_s(v0, v1, v2);
    let e0 = edge_s(x1, y1, x2, y2, px, py);
    let e1 = edge_s(x2, y2, x0, y0, px, py);
    let e2 = edge_s(x0, y0, x1, y1, px, py);
    let a2 = area2_s(v0, v1, v2);
    lemma_edge_sum_raw(x0, y0, x1, y1, x2, y2, px, py);
    assert(e0 + e1 + e2 == a2);
    // move v0 to the origin
    let rx1 = x1 - x0;
    let ry1 = y1 - y0;
    let rx2 = x2 - x0;
    let ry2 = y2 - y0;
    let rpx = px - x0;
    let rpy = py - y0;
    assert(e1 == ry2 * rpx - rx2 * rpy) by (nonlinear_arith)
        requires
            e1 == (x0 - x2) * (py - y2) - (y0 - y2) * (px - x2),
            rx2 == x2 - x0,
            ry2 == y2 - y0,
            rpx == px - x0,
            rpy == py - y0;
    assert(e2 == rx1 * rpy - ry1 * rpx) by (nonlinear_arith)
        requires
            e2 == (x1 - x0) * (py - y0) - (y1 - y0) * (px - x0),
            rx1 == x1 - x0,
            ry1 == y1 - y0,
            rpx == px - x0,
            rpy == py - y0;
    assert(a2 == rx1 * ry2 - ry1 * rx2) by (nonlinear_arith)
        requires
            a2 == (x1 - x0) * (y2 - y0) - (y1 - y0) * (x2 - x0),
            rx1 == x1 - x0,
            ry1 == y1 - y0,
            rx2 == x2 - x0,
            ry2 == y2 - y0;
    lemma_bary_rel(rx1, ry1, rx2, ry2, rpx, rpy);
    assert(e1 * rx1 + e2 * rx2 == a2 * rpx);
    assert(e1 * ry1 + e2 * ry2 == a2 * rpy);
    // back to absolute coordinates
    assert(e0 * x0 + e1 * x1 + e2 * x2 == a2 * px) by (nonlinear_arith)
        requires
            e0 == a2 - e1 - e2,
            e1 * (x1 - x0) + e2 * (x2 - x0) == a2 * (px - x0);
    assert(e0 * y0 + e1 * y1 + e2 * y2 == a2 * py) by (nonlinear_arith)
        requires
            e0 == a2 - e1 - e2,
            e1 * (y1 - y0) + e2 * (y2 - y0) == a2 * (py - y0);
    // apply the orientation
    if a2 >= 0 {
        assert(w0 * x0 + w1 * x1 + w2 * x2 == an * px && w0 * y0 + w1 * y1 + w2 * y2 == an * py);
    } else {
        assert(w0 * x0 + w1 * x1 + w2 * x2 == an * px && w0 * y0 + w1 * y1 + w2 * y2 == an * py)
            by (nonlinear_arith)
            requires
                w0 == -e0,
                w1 == -e1,
                w2 == -e2,
                an == -a2,
                e0 * x0 + e1 * x1 + e2 * x2 == a2 * px,
                e0 * y0 + e1 * y1 + e2 * y2 == a2 * py;
    }
    lemma_weight_sum(v0, v1, v2, px, py);
    lemma_convex_bounds(w0, w1, w2, an, x0, x1, x2, imin3_s(x0, x1, x2), imax3_s(x0, x1, x2));
    lemma_convex_bounds(w0, w1, w2, an, y0, y1, y2, imin3_s(y0, y1, y2), imax3_s(y0, y1, y2));
    lemma_cancel_factor(an, px, imin3_s(x0, x1, x2), imax3_s(x0, x1, x2));
    lemma_cancel_factor(an, py, imin3_s(y0, y1, y2), imax3_s(y0, y1, y2));
}

/// Every fragment of one row lies at a covered pixel of that row and is
/// that pixel's interpolated fragment.
proof fn lemma_row_sound(v0: Vertex, v1: Vertex, v2: Vertex, py: int, xmin: int, xmax: int, i: int)
    requires
        0 <= i < row_frags_s(v0, v1, v2, py, xmin, xmax).len(),
    ensures
        exists|px: int|
            xmin <= px <= xmax && covered_s(v0, v1, v2, px, py) && row_frags_s(
                v0,
                v1,
                v2,
                py,
                xmin,
                xmax,
            )[i] == frag_at_s(v0, v1, v2, px, py),
    decreases xmax + 1 - xmin,
{
    let pre = row_frags_s(v0, v1, v2, py, xmin, xmax - 1);
    if i < pre.len() {
        lemma_row_sound(v0, v1, v2, py, xmin, xmax - 1, i);
        let px = choose|px: int|
            xmin <= px <= xmax - 1 && covered_s(v0, v1, v2, px, py) && pre[i] == frag_at_s(
                v0,
                v1,
                v2,
                px,
                py,
            );
        assert(xmin <= px <= xmax && covered_s(v0, v1, v2, px, py) && row_frags_s(
            v0,
            v1,
            v2,
            py,
            xmin,
            xmax,
        )[i] == frag_at_s(v0, v1, v2, px, py));
    } else {
        assert(covered_s(v0, v1, v2, xmax, py));
        assert(row_frags_s(v0, v1, v2, py, xmin, xmax)[i] == frag_at_s(v0, v1, v2, xmax, py));
    }
}

/// Every fragment of a row block lies at a covered pixel of the block.
proof fn lemma_rows_sound(
    v0: Vertex,
    v1: Vertex,
    v2: Vertex,
    xmin: int,
    xmax: int,
    ymin: int,
    ymax: int,
    i: int,
)
    requires
        0 <= i < rows_frags_s(v0, v1, v2, xmin, xmax, ymin, ymax).len(),
    ensures
        exists|px: int, py: int|
            xmin <= px <= xmax && ymin <= py <= ymax && covered_s(v0, v1, v2, px, py)
                && rows_frags_s(v0, v1, v2, xmin, xmax, ymin, ymax)[i] == frag_at_s(
                v0,
                v1,
                v2,
                px,
                py,
            ),
    decreases ymax + 1 - ymin,
{
    let pre = rows_frags_s(v0, v1, v2, xmin, xmax, ymin, ymax - 1);
    if i < pre.len() {
        lemma_rows_sound(v0, v1, v2, xmin, xmax, ymin, ymax - 1, i);
        let (px, py) = choose|px: int, py: int|
            xmin <= px <= xmax && ymin <= py <= ymax - 1 && covered_s(v0, v1, v2, px, py)
                && pre[i] == frag_at_s(v0, v1, v2, px, py);
        assert(xmin <= px <= xmax && ymin <= py <= ymax && covered_s(v0, v1, v2, px, py)
            && rows_frags_s(v0, v1, v2, xmin, xmax, ymin, ymax)[i] == frag_at_s(
            v0,
            v1,
            v2,
            px,
            py,
        ));
    } else {
        lemma_row_sound(v0, v1, v2, ymax, xmin, xmax, i - pre.len());
        let px = choose|px: int|
            xmin <= px <= xmax && covered_s(v0, v1, v2, px, ymax) && row_frags_s(
                v0,
                v1,
                v2,
                ymax,
                xmin,
                xmax,
            )[i - pre.len()] == frag_at_s(v0, v1, v2, px, ymax);
        assert(xmin <= px <= xmax && ymin <= ymax <= ymax && covered_s(v0, v1, v2, px, ymax)
            && rows_frags_s(v0, v1, v2, xmin, xmax, ymin, ymax)[i] == frag_at_s(
            v0,
            v1,
            v2,
            px,
            ymax,
        ));
    }
}

/// Every fragment of the rasterized stream lies at a covered on-screen
/// pixel and is exactly that pixel's interpolated fragment.
pub proof fn lemma_raster_sound(
    v0: Vertex,
    v1: Vertex,
    v2: Vertex,
    width: int,
    height: int,
    i: int,
)
    requires
        0 <= i < raster_s(v0, v1, v2, width, height).len(),
    ensures
        exists|px: int, py: int|
            0 <= px < width && 0 <= py < height && covered_s(v0, v1, v2, px, py) && raster_s(
                v0,
                v1,
                v2,
                width,
                height,
            )[i] == frag_at_s(v0, v1, v2, px, py),
{
    lemma_rows_sound(
        v0,
        v1,
        v2,
        bbox_xmin_s(v0, v1, v2),
        bbox_xmax_s(v0, v1, v2, width),
        bbox_ymin_s(v0, v1, v2),
        bbox_ymax_s(v0, v1, v2, height),
        i,
    );
}

/// A sequence that contains a fragment still contains it after more
/// fragments are appended.
proof fn lemma_contains_append(a: Seq<Fragment>, b: Seq<Fragment>, f: Fragment)
    requires
        a.contains(f) || b.contains(f),
    ensures
        (a + b).contains(f),
{
    if a.contains(f) {
        let i = choose|i: int| 0 <= i < a.len() && a[i] == f;
        assert((a + b)[i] == f);
    } else {
        let i = choose|i: int| 0 <= i < b.len() && b[i] == f;
        assert((a + b)[a.len() + i] == f);
    }
}

/// A covered pixel of the row contributes its fragment to the row.
proof fn lemma_row_complete(
    v0: Vertex,
    v1: Vertex,
    v2: Vertex,
    py: int,
    xmin: int,
    xmax: int,
    px: int,
)
    requires
        xmin <= px <= xmax,
        covered_s(v0, v1, v2, px, py),
    ensures
        row_frags_s(v0, v1, v2, py, xmin, xmax).contains(frag_at_s(v0, v1, v2, px, py)),
    decreases xmax + 1 - xmin,
{
    let pre = row_frags_s(v0, v1, v2, py, xmin, xmax - 1);
    let cell = cell_s(v0, v1, v2, xmax, py);
    if px == xmax {
        assert(cell[0] == frag_at_s(v0, v1, v2, px, py));
        assert(cell.contains(frag_at_s(v0, v1, v2, px, py)));
        lemma_contains_append(pre, cell, frag_at_s(v0, v1, v2, px, py));
    } else {
        lemma_row_complete(v0, v1, v2, py, xmin, xmax - 1, px);
        lemma_contains_append(pre, cell, frag_at_s(v0, v1, v2, px, py));
    }
}

/// A covered pixel of the block contributes its fragment to the block.
proof fn lemma_rows_complete(
    v0: Vertex,
    v1: Vertex,
    v2: Vertex,
    xmin: int,
    xmax: int,
    ymin: int,
    ymax: int,
    px: int,
    py: int,
)
    requires
        xmin <= px <= xmax,
        ymin <= py <= ymax,
        covered_s(v0, v1, v2, px, py),
    ensures
        rows_frags_s(v0, v1, v2, xmin, xmax, ymin, ymax).contains(frag_at_s(v0, v1, v2, px, py)),
    decreases ymax + 1 - ymin,
{
    let pre = rows_frags_s(v0, v1, v2, xmin, xmax, ymin, ymax - 1);
    let row = row_frags_s(v0, v1, v2, ymax, xmin, xmax);
    if py == ymax {
        lemma_row_complete(v0, v1, v2, ymax, xmin, xmax, px);
        lemma_contains_append(pre, row, frag_at_s(v0, v1, v2, px, py));
    } else {
        lemma_rows_complete(v0, v1, v2, xmin, xmax, ymin, ymax - 1, px, py);
        lemma_contains_append(pre, row, frag_at_s(v0, v1, v2, px, py));
    }
}

/// Every covered on-screen pixel of a non-degenerate triangle appears in
/// the rasterized stream with its interpolated fragment.
pub proof fn lemma_raster_complete(
    v0: Vertex,
    v1: Vertex,
    v2: Vertex,
    width: int,
    height: int,
    px: int,
    py: int,
)
    requires
        area2_s(v0, v1, v2) != 0,
        0 <= px < width,
        0 <= py < height,
        covered_s(v0, v1, v2, px, py),
    ensures
        raster_s(v0, v1, v2, width, height).contains(frag_at_s(v0, v1, v2, px, py)),
{
    lemma_covered_in_bbox(v0, v1, v2, px, py);
    lemma_rows_complete(
        v0,
        v1,
        v2,
        bbox_xmin_s(v0, v1, v2),
        bbox_xmax_s(v0, v1, v2, width),
        bbox_ymin_s(v0, v1, v2),
        bbox_ymax_s(v0, v1, v2, height),
        px,
        py,
    );
}

fn imin3_i(a: i64, b: i64, c: i64) -> (r: i64)
    ensures
        r == imin3_s(a as int, b as int, c as int),
{
    let m = if a <= b {
        a
    } else {
        b
    };
    if m <= c {
        m
    } else {
        c
    }
}

fn imax3_i(a: i64, b: i64, c: i64) -> (r: i64)
    ensures
        r == imax3_s(a as int, b as int, c as int),
{
    let m = if a >= b {
        a
    } else {
        b
    };
    if m >= c {
        m
    } else {
        c
    }
}

} // verus!
