//! Fragments: covered pixels with interpolated attributes.

use vstd::prelude::*;
use crate::color::Color;
use crate::vecmat::FxVec3;

verus! {

/// One covered pixel produced by the rasterizer and consumed right away by
/// the shader dispatch and the framebuffer. `x`, `y` are the pixel's
/// integer screen position; `depth`, `normal`, `vertex_position` and
/// `color` are barycentric blends of the triangle's vertices;
/// `intensity` is reserved and not populated by the rasterizer.
#[derive(Clone, Copy, PartialEq, Eq, Structural, Debug)]
pub struct Fragment {
    pub x: usize,
    pub y: usize,
    pub color: Color,
    pub depth: i64,
    pub normal: FxVec3,
    pub intensity: i64,
    pub vertex_position: FxVec3,
}

impl Fragment {
    pub fn new(
        x: usize,
        y: usize,
        color: Color,
        depth: i64,
        normal: FxVec3,
        intensity: i64,
        vertex_position: FxVec3,
    ) -> (f: Fragment)
        ensures
            f == (Fragment { x, y, color, depth, normal, intensity, vertex_position }),
    {
        Fragment { x, y, color, depth, normal, intensity, vertex_position }
    }
}

} // verus!
