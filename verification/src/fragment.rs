//! The fragment record handed to the shading stage.

use vstd::prelude::*;
use crate::linalg::{Vec3Fx, Vec3i};

verus! {

/// A rasterizer-interpolated point sample covering one pixel: an
/// interpolated position and an interpolated (not yet normalized) normal.
#[derive(Clone, Copy, Debug, PartialEq, Eq)]
pub struct Fragment {
    pub vertex_position: Vec3Fx,
    pub normal: Vec3Fx,
}

/// Ghost mirror of `Fragment`.
pub ghost struct FragmentI {
    pub vertex_position: Vec3i,
    pub normal: Vec3i,
}

impl View for Fragment {
    type V = FragmentI;

    open spec fn view(&self) -> FragmentI {
        FragmentI { vertex_position: self.vertex_position@, normal: self.normal@ }
    }
}

impl Fragment {
    /// A fragment from its interpolated position and normal.
    pub fn new(vertex_position: Vec3Fx, normal: Vec3Fx) -> (f: Fragment)
        ensures
            f.vertex_position == vertex_position,
            f.normal == normal,
    {
        Fragment { vertex_position, normal }
    }
}

} // verus!
