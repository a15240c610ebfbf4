//! Mesh vertices, before and after the vertex transform.

use vstd::prelude::*;
use crate::color::Color;
use crate::vecmat::{FxVec2, FxVec3};

verus! {

/// One mesh vertex. `position`, `normal`, `tex_coords` and `color` come
/// from the mesh; `transformed_position` (screen x, screen y, depth) and
/// `transformed_normal` are filled in by the vertex transform. A transform
/// never mutates its input: it yields a new value.
#[derive(Clone, Copy, PartialEq, Eq, Structural, Debug)]
pub struct Vertex {
    pub position: FxVec3,
    pub normal: FxVec3,
    pub tex_coords: FxVec2,
    pub color: Color,
    pub transformed_position: FxVec3,
    pub transformed_normal: FxVec3,
}

impl Vertex {
    /// A fresh vertex; the transformed fields start at the untransformed
    /// values.
    pub fn new(position: FxVec3, normal: FxVec3, tex_coords: FxVec2, color: Color) -> (v: Vertex)
        ensures
            v == (Vertex {
                position,
                normal,
                tex_coords,
                color,
                transformed_position: position,
                transformed_normal: normal,
            }),
    {
        Vertex {
            position,
            normal,
            tex_coords,
            color,
            transformed_position: position,
            transformed_normal: normal,
        }
    }
}

} // verus!
