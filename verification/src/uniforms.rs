//! Per-frame shared parameters.

use vstd::prelude::*;
use crate::noise::Noise;
use crate::vecmat::FxMat4;

verus! {

/// The parameters shared by every draw call of a frame: the four transform
/// matrices, an integer time counter and the noise sampler. Read-only per
/// draw call; a caller may clone the value and override just the model
/// matrix to issue several instanced draws.
#[derive(Clone, Copy, PartialEq, Eq, Structural, Debug)]
pub struct Uniforms {
    pub model_matrix: FxMat4,
    pub view_matrix: FxMat4,
    pub projection_matrix: FxMat4,
    pub viewport_matrix: FxMat4,
    pub time: u32,
    pub noise: Noise,
}

impl Uniforms {
    pub fn new(
        model_matrix: FxMat4,
        view_matrix: FxMat4,
        projection_matrix: FxMat4,
        viewport_matrix: FxMat4,
        time: u32,
        noise: Noise,
    ) -> (u: Uniforms)
        ensures
            u == (Uniforms {
                model_matrix,
                view_matrix,
                projection_matrix,
                viewport_matrix,
                time,
                noise,
            }),
    {
        Uniforms { model_matrix, view_matrix, projection_matrix, viewport_matrix, time, noise }
    }
}

} // verus!
