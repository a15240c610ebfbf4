//! Point lights.

use vstd::prelude::*;
use crate::color::Color;
use crate::vecmat::FxVec3;

verus! {

/// A point light: a position, a color and a Q16.16 intensity.
#[derive(Clone, Copy, PartialEq, Eq, Structural, Debug)]
pub struct Light {
    pub position: FxVec3,
    pub color: Color,
    pub intensity: i64,
}

impl Light {
    pub fn new(position: FxVec3, color: Color, intensity: i64) -> (l: Light)
        ensures
            l == (Light { position, color, intensity }),
    {
        Light { position, color, intensity }
    }

    /// The central body's light: warm white at the origin, intensity 1.5.
    pub fn new_sun() -> (l: Light)
        ensures
            l == (Light {
                position: FxVec3 { x: 0, y: 0, z: 0 },
                color: Color { r: 255, g: 229, b: 179 },
                intensity: 98304,
            }),
    {
        Light {
            position: FxVec3 { x: 0, y: 0, z: 0 },
            color: Color { r: 255, g: 229, b: 179 },
            intensity: 98304,
        }
    }
}

} // verus!
