//! The vertex record that flows through the transform stage.

use vstd::prelude::*;
use crate::color::Color;
use crate::linalg::{Vec2Fx, Vec3Fx};

verus! {

/// A mesh vertex.  The object-space fields (`position`, `normal`,
/// `tex_coords`, `color`) are authored data; `transformed_position` and
/// `transformed_normal` are meaningful only after the vertex transform stage
/// has produced them.
#[derive(Clone, Copy, Debug, PartialEq, Eq)]
pub struct Vertex {
    pub position: Vec3Fx,
    pub normal: Vec3Fx,
    pub tex_coords: Vec2Fx,
    pub color: Color,
    pub transformed_position: Vec3Fx,
    pub transformed_normal: Vec3Fx,
}

impl Vertex {
    /// A fresh vertex from its object-space attributes; the derived fields
    /// start at zero until the transform stage fills them.
    pub fn new(position: Vec3Fx, normal: Vec3Fx, tex_coords: Vec2Fx, color: Color) -> (v: Vertex)
        ensures
            v.position == position,
            v.normal == normal,
            v.tex_coords == tex_coords,
            v.color == color,
            v.transformed_position == (Vec3Fx { x: 0, y: 0, z: 0 }),
            v.transformed_normal == (Vec3Fx { x: 0, y: 0, z: 0 }),
    {
        Vertex {
            position,
            normal,
            tex_coords,
            color,
            transformed_position: Vec3Fx { x: 0, y: 0, z: 0 },
            transformed_normal: Vec3Fx { x: 0, y: 0, z: 0 },
        }
    }
}

} // verus!
