//! The vertex transform stage on concrete inputs.

use planet_shading::color::Color;
use planet_shading::linalg::{mat4_identity, Mat4Fx, Vec2Fx, Vec3Fx};
use planet_shading::noise::NoiseFx;
use planet_shading::shaders::{clip_w, vertex_shader};
use planet_shading::vertex::Vertex;
use planet_shading::Uniforms;

const ONE: i64 = 1_000_000;

fn identity_uniforms() -> Uniforms {
    Uniforms {
        model_matrix: mat4_identity(),
        view_matrix: mat4_identity(),
        projection_matrix: mat4_identity(),
        viewport_matrix: mat4_identity(),
        current_shader: 1,
        noise: NoiseFx::new(42),
    }
}

fn sample_vertex() -> Vertex {
    Vertex::new(
        Vec3Fx { x: 2_500_000, y: -1_250_000, z: 3_000_000 },
        Vec3Fx { x: 0, y: 0, z: ONE },
        Vec2Fx { x: 500_000, y: 250_000 },
        Color::new(10, 20, 30),
    )
}

#[test]
fn pass_through_keeps_object_space_fields() {
    let v = sample_vertex();
    let u = identity_uniforms();
    let out = vertex_shader(&v, &u);
    assert_eq!(out.position, v.position);
    assert_eq!(out.normal, v.normal);
    assert_eq!(out.tex_coords, v.tex_coords);
    assert_eq!(out.color, v.color);
}

#[test]
fn identity_transform_is_the_identity() {
    let v = sample_vertex();
    let u = identity_uniforms();
    assert_eq!(clip_w(&v, &u), ONE);
    let out = vertex_shader(&v, &u);
    assert_eq!(out.transformed_position, v.position);
    assert_eq!(out.transformed_normal, v.normal);
}

#[test]
fn perspective_divide_matches_hand_computation() {
    // A projection whose fourth row copies z into w, so the perspective
    // divide is a division by depth; everything else is the identity.
    let mut projection: Mat4Fx = mat4_identity();
    projection.m30 = 0;
    projection.m31 = 0;
    projection.m32 = ONE;
    projection.m33 = 0;
    let u = Uniforms { projection_matrix: projection, ..identity_uniforms() };

    let v = Vertex::new(
        Vec3Fx { x: 4_000_000, y: 2_000_000, z: 2_000_000 },
        Vec3Fx { x: 0, y: 0, z: ONE },
        Vec2Fx { x: 0, y: 0 },
        Color::new(0, 0, 0),
    );
    assert_eq!(clip_w(&v, &u), 2_000_000);
    let out = vertex_shader(&v, &u);
    // x/z = 2, y/z = 1, z/z = 1, exactly in fixed point.
    assert_eq!(out.transformed_position, Vec3Fx { x: 2_000_000, y: ONE, z: ONE });
}

#[test]
fn perspective_divide_truncates_fractions() {
    let mut projection: Mat4Fx = mat4_identity();
    projection.m30 = 0;
    projection.m31 = 0;
    projection.m32 = ONE;
    projection.m33 = 0;
    let u = Uniforms { projection_matrix: projection, ..identity_uniforms() };

    let v = Vertex::new(
        Vec3Fx { x: ONE, y: 2_000_000, z: 3_000_000 },
        Vec3Fx { x: 0, y: 0, z: ONE },
        Vec2Fx { x: 0, y: 0 },
        Color::new(0, 0, 0),
    );
    let out = vertex_shader(&v, &u);
    // 1/3 and 2/3 truncate to six decimal places.
    assert_eq!(out.transformed_position, Vec3Fx { x: 333_333, y: 666_666, z: ONE });
}

#[test]
fn singular_model_matrix_falls_back_to_identity_normals() {
    // The rotation/scale block is all zeros: its determinant is zero, so the
    // normal matrix must fall back to the identity.
    let singular = Mat4Fx {
        m00: 0,
        m01: 0,
        m02: 0,
        m03: 0,
        m10: 0,
        m11: 0,
        m12: 0,
        m13: 0,
        m20: 0,
        m21: 0,
        m22: 0,
        m23: 0,
        m30: 0,
        m31: 0,
        m32: 0,
        m33: ONE,
    };
    let u = Uniforms { model_matrix: singular, ..identity_uniforms() };
    let v = sample_vertex();
    assert_eq!(clip_w(&v, &u), ONE);
    let out = vertex_shader(&v, &u);
    assert_eq!(out.transformed_normal, v.normal);
}

#[test]
fn duplicate_rows_are_singular_too() {
    // Two equal rows in the rotation/scale block: determinant zero again.
    let mut m: Mat4Fx = mat4_identity();
    m.m00 = ONE;
    m.m01 = ONE;
    m.m02 = 0;
    m.m10 = ONE;
    m.m11 = ONE;
    m.m12 = 0;
    let u = Uniforms { model_matrix: m, ..identity_uniforms() };
    let v = Vertex::new(
        Vec3Fx { x: 700_000, y: -300_000, z: 450_000 },
        Vec3Fx { x: 250_000, y: 750_000, z: -500_000 },
        Vec2Fx { x: 0, y: 0 },
        Color::new(1, 2, 3),
    );
    let out = vertex_shader(&v, &u);
    assert_eq!(out.transformed_normal, v.normal);
}
