//! The fixed-point vector and matrix operations on concrete values.

use planet_shading::linalg::{
    dot3, inverse3, mat3_identity, mat4_identity, normalize3, transpose3, upper3, vec3_sub,
    Mat3Fx, Vec3Fx,
};
use planet_shading::shaders::lambert;

const ONE: i64 = 1_000_000;

#[test]
fn normalize_a_three_four_zero_triangle() {
    let v = Vec3Fx { x: 3 * ONE, y: 4 * ONE, z: 0 };
    // The length is exactly five, so the unit vector is exact.
    assert_eq!(normalize3(&v), Vec3Fx { x: 600_000, y: 800_000, z: 0 });
}

#[test]
fn normalize_keeps_the_zero_vector() {
    let v = Vec3Fx { x: 0, y: 0, z: 0 };
    assert_eq!(normalize3(&v), v);
}

#[test]
fn normalized_vector_has_unit_dot_with_itself() {
    let v = Vec3Fx { x: 3 * ONE, y: 4 * ONE, z: 0 };
    let n = normalize3(&v);
    assert_eq!(dot3(&n, &n), ONE);
}

#[test]
fn dot_of_perpendicular_vectors_is_zero() {
    let a = Vec3Fx { x: ONE, y: 0, z: 0 };
    let b = Vec3Fx { x: 0, y: ONE, z: 0 };
    assert_eq!(dot3(&a, &b), 0);
}

#[test]
fn vec3_sub_is_componentwise() {
    let a = Vec3Fx { x: ONE, y: ONE, z: 2 * ONE };
    let b = Vec3Fx { x: ONE, y: 250_000, z: -ONE };
    assert_eq!(vec3_sub(&a, &b), Vec3Fx { x: 0, y: 750_000, z: 3 * ONE });
}

#[test]
fn lambert_is_one_head_on_and_zero_facing_away() {
    let n = Vec3Fx { x: 0, y: 0, z: 7 * ONE };
    let l = Vec3Fx { x: 0, y: 0, z: 2 * ONE };
    assert_eq!(lambert(&n, &l), ONE);
    let away = Vec3Fx { x: 0, y: 0, z: -2 * ONE };
    assert_eq!(lambert(&n, &away), 0);
}

#[test]
fn inverse_of_a_uniform_scale_is_the_reciprocal_scale() {
    let two = Mat3Fx {
        m00: 2 * ONE,
        m01: 0,
        m02: 0,
        m10: 0,
        m11: 2 * ONE,
        m12: 0,
        m20: 0,
        m21: 0,
        m22: 2 * ONE,
    };
    let half = Mat3Fx {
        m00: 500_000,
        m01: 0,
        m02: 0,
        m10: 0,
        m11: 500_000,
        m12: 0,
        m20: 0,
        m21: 0,
        m22: 500_000,
    };
    assert_eq!(inverse3(&two), half);
}

#[test]
fn inverse_of_a_singular_matrix_is_the_identity() {
    let zero = Mat3Fx {
        m00: 0,
        m01: 0,
        m02: 0,
        m10: 0,
        m11: 0,
        m12: 0,
        m20: 0,
        m21: 0,
        m22: 0,
    };
    assert_eq!(inverse3(&zero), mat3_identity());
}

#[test]
fn transpose_and_upper_block_pick_the_right_entries() {
    let mut m4 = mat4_identity();
    m4.m01 = 123;
    m4.m20 = 456;
    m4.m03 = 789;  // outside the upper block
    let m3 = upper3(&m4);
    assert_eq!(m3.m01, 123);
    assert_eq!(m3.m20, 456);
    let t = transpose3(&m3);
    assert_eq!(t.m10, 123);
    assert_eq!(t.m02, 456);
    assert_eq!(t.m00, ONE);
}
