//! A software shading core for procedurally colored planets.
//!
//! The library works in fixed-point arithmetic: a scalar is an `i64` holding
//! its value times one million (`fixed::SCALE`).  It offers two pipeline
//! stages: a per-vertex transform from model space to screen space (with a
//! derived world-space normal), and a per-fragment color computation that
//! dispatches on a biome selector to one of seven procedural terrain shaders.

use vstd::prelude::*;

pub mod color;
pub mod fixed;
pub mod fragment;
pub mod linalg;
pub mod noise;
pub mod shaders;
pub mod vertex;

use crate::linalg::{Mat4Fx, Mat4i};
use crate::noise::NoiseFx;

verus! {

/// The per-frame uniform bundle: four transform matrices, the active biome
/// selector, and the noise-sampling capability.  It is built once per frame
/// and read-only while shading.
#[derive(Clone, Copy, Debug, PartialEq, Eq)]
pub struct Uniforms {
    pub model_matrix: Mat4Fx,
    pub view_matrix: Mat4Fx,
    pub projection_matrix: Mat4Fx,
    pub viewport_matrix: Mat4Fx,
    pub current_shader: u32,
    pub noise: NoiseFx,
}

/// Ghost mirror of `Uniforms`.
pub ghost struct UniformsI {
    pub model_matrix: Mat4i,
    pub view_matrix: Mat4i,
    pub projection_matrix: Mat4i,
    pub viewport_matrix: Mat4i,
    pub current_shader: int,
    pub noise_seed: int,
}

impl View for Uniforms {
    type V = UniformsI;

    open spec fn view(&self) -> UniformsI {
        UniformsI {
            model_matrix: self.model_matrix@,
            view_matrix: self.view_matrix@,
            projection_matrix: self.projection_matrix@,
            viewport_matrix: self.viewport_matrix@,
            current_shader: self.current_shader as int,
            noise_seed: self.noise.seed as int,
        }
    }
}

} // verus!
