//! The two pipeline stages: the per-vertex transform and the per-fragment
//! biome shading dispatch.

use vstd::prelude::*;
use crate::color::{channel_of_fixed, spec_lerp, spec_scale, Color, ColorI};
use crate::fixed::{
    fadd, fdiv, fmax0, fmul, fsub, fsqrt, fx_add, fx_div, fx_max0, fx_mul, fx_sin, fx_sqrt,
    fx_sub, lemma_fdiv_one, lemma_fdiv_self, lemma_fdiv_zero, lemma_fmul_one, lemma_fmul_zero,
    spec_sin, SCALE,
};
use crate::fragment::{Fragment, FragmentI};
use crate::color::lemma_lerp_endpoints;
use crate::linalg::{
    dot3, inverse3, mat3_mul_vec3, mat3i_identity, mat4_mul_vec4, mat4i_identity, normalize3,
    spec_det3, spec_dot3, spec_inverse3, spec_mat3_mul_vec3, spec_mat4_mul_vec4,
    spec_normalize3, spec_transpose3, spec_upper3, spec_vec3_sub, transpose3, upper3,
    vec3_in_range, vec3_sub, vec4_in_range, Mat3i, Vec3Fx, Vec3i, Vec4Fx, Vec4i,
};
use crate::noise::spec_noise;
use crate::vertex::Vertex;
use crate::{Uniforms, UniformsI};

verus! {

// ---------------------------------------------------------------------------
// Vertex transform stage
// ---------------------------------------------------------------------------

/// The clip-space position of an object-space point: the model, view and
/// projection matrices applied in turn to its homogeneous lift.
pub open spec fn spec_clip(u: UniformsI, p: Vec3i) -> Vec4i {
    let ph = Vec4i { x: p.x, y: p.y, z: p.z, w: SCALE as int };
    spec_mat4_mul_vec4(
        u.projection_matrix,
        spec_mat4_mul_vec4(u.view_matrix, spec_mat4_mul_vec4(u.model_matrix, ph)),
    )
}

/// Normalized device coordinates: the clip-space position after the
/// perspective divide by its `w` component.  Meaningful only when that `w`
/// is nonzero.
pub open spec fn spec_ndc(u: UniformsI, p: Vec3i) -> Vec4i {
    let c = spec_clip(u, p);
    Vec4i { x: fdiv(c.x, c.w), y: fdiv(c.y, c.w), z: fdiv(c.z, c.w), w: SCALE as int }
}

/// The screen-space position: the viewport matrix applied to the normalized
/// device coordinates, with the homogeneous component dropped.
pub open spec fn spec_screen_position(u: UniformsI, p: Vec3i) -> Vec3i {
    let s = spec_mat4_mul_vec4(u.viewport_matrix, spec_ndc(u, p));
    Vec3i { x: s.x, y: s.y, z: s.z }
}

/// The normal matrix: the inverse of the transpose of the rotation/scale
/// block of the model matrix.  When that block is singular the inverse falls
/// back to the identity, so normals pass through untransformed.
pub open spec fn spec_normal_matrix(u: UniformsI) -> Mat3i {
    spec_inverse3(spec_transpose3(spec_upper3(u.model_matrix)))
}

/// The world-space normal: the normal matrix applied to the object-space
/// normal (not renormalized; lighting normalizes before use).
pub open spec fn spec_transformed_normal(u: UniformsI, n: Vec3i) -> Vec3i {
    spec_mat3_mul_vec3(spec_normal_matrix(u), n)
}

/// The `w` the clip-space position of this vertex gets under these uniforms.
/// The vertex transform divides by it, so a caller that cannot vouch for its
/// projection checks this value for zero first.
pub fn clip_w(vertex: &Vertex, uniforms: &Uniforms) -> (w: i64)
    ensures
        w as int == spec_clip(uniforms@, vertex.position@).w,
{
    let ph = Vec4Fx {
        x: vertex.position.x,
        y: vertex.position.y,
        z: vertex.position.z,
        w: SCALE,
    };
    let mv = mat4_mul_vec4(&uniforms.model_matrix, &ph);
    let vv = mat4_mul_vec4(&uniforms.view_matrix, &mv);
    let c = mat4_mul_vec4(&uniforms.projection_matrix, &vv);
    c.w
}

/// The vertex transform stage: object space to screen space, plus the
/// world-space normal.  All object-space fields pass through unchanged.
///
/// The caller must supply uniforms under which this vertex's clip-space `w`
/// is nonzero (a valid projection never produces `w == 0` for a visible
/// vertex); `clip_w` lets a caller check.
pub fn vertex_shader(vertex: &Vertex, uniforms: &Uniforms) -> (out: Vertex)
    requires
        spec_clip(uniforms@, vertex.position@).w != 0,
    ensures
        out.position == vertex.position,
        out.normal == vertex.normal,
        out.tex_coords == vertex.tex_coords,
        out.color == vertex.color,
        out.transformed_position@ == spec_screen_position(uniforms@, vertex.position@),
        out.transformed_normal@ == spec_transformed_normal(uniforms@, vertex.normal@),
{
    let position = Vec4Fx {
        x: vertex.position.x,
        y: vertex.position.y,
        z: vertex.position.z,
        w: SCALE,
    };
    let mv = mat4_mul_vec4(&uniforms.model_matrix, &position);
    let vv = mat4_mul_vec4(&uniforms.view_matrix, &mv);
    let transformed = mat4_mul_vec4(&uniforms.projection_matrix, &vv);

    let w: i64 = transformed.w;
    let ndc_position = Vec4Fx {
        x: fx_div(transformed.x, w),
        y: fx_div(transformed.y, w),
        z: fx_div(transformed.z, w),
        w: SCALE,
    };

    let screen_position = mat4_mul_vec4(&uniforms.viewport_matrix, &ndc_position);

    let model_mat3 = upper3(&uniforms.model_matrix);
    let normal_matrix = inverse3(&transpose3(&model_mat3));
    let transformed_normal = mat3_mul_vec3(&normal_matrix, &vertex.normal);

    Vertex {
        position: vertex.position,
        normal: vertex.normal,
        tex_coords: vertex.tex_coords,
        color: vertex.color,
        transformed_position: Vec3Fx {
            x: screen_position.x,
            y: screen_position.y,
            z: screen_position.z,
        },
        transformed_normal,
    }
}

// ---------------------------------------------------------------------------
// Shared shading helpers
// ---------------------------------------------------------------------------

/// A color from three fixed-point intensities, channel by channel.
pub open spec fn color_of(r: int, g: int, b: int) -> ColorI {
    ColorI { r: channel_of_fixed(r), g: channel_of_fixed(g), b: channel_of_fixed(b) }
}

/// The normalized position of `n` inside the band from `lo` to `hi`:
/// `(n - lo) / (hi - lo)` in fixed point.
pub open spec fn spec_band_fraction(n: int, lo: int, hi: int) -> int {
    fdiv(fsub(n, lo), fsub(hi, lo))
}

/// The interpolation fraction of a value within a blend band.
pub fn band_fraction(n: i64, lo: i64, hi: i64) -> (t: i64)
    requires
        fsub(hi as int, lo as int) != 0,
    ensures
        t as int == spec_band_fraction(n as int, lo as int, hi as int),
{
    fx_div(fx_sub(n, lo), fx_sub(hi, lo))
}

/// The Lambertian diffuse term: the dot product of the two vectors once
/// normalized, clamped at zero.
pub open spec fn spec_lambert(normal: Vec3i, light: Vec3i) -> int {
    fmax0(spec_dot3(spec_normalize3(normal), spec_normalize3(light)))
}

/// Lambertian diffuse lighting from a (not necessarily unit) normal and
/// light direction.
pub fn lambert(normal: &Vec3Fx, light: &Vec3Fx) -> (d: i64)
    ensures
        d as int == spec_lambert(normal@, light@),
        0 <= d,
{
    fx_max0(dot3(&normalize3(normal), &normalize3(light)))
}

// ---------------------------------------------------------------------------
// The seven biome shaders
// ---------------------------------------------------------------------------

/// Lush tropical world: turquoise water below the land threshold, green to
/// sandy land above it, lit from a point above and in front of the scene.
pub open spec fn spec_tropical(n: int, f: FragmentI) -> (ColorI, int) {
    let base = if n > 400000 {
        spec_lerp(
            color_of(200000, 800000, 300000),
            color_of(800000, 800000, 200000),
            spec_band_fraction(n, 400000, SCALE as int),
        )
    } else {
        spec_lerp(
            color_of(0, 500000, 800000),
            color_of(100000, 600000, 900000),
            spec_band_fraction(n, 0, 400000),
        )
    };
    let light_pos = Vec3i { x: SCALE as int, y: SCALE as int, z: 2 * SCALE as int };
    let diffuse = spec_lambert(f.normal, spec_vec3_sub(light_pos, f.vertex_position));
    (spec_scale(base, fadd(200000, fmul(800000, diffuse))), 0)
}

/// The tropical shader on an explicit noise sample.
pub fn tropical_color(fragment: &Fragment, noise_value: i64) -> (out: (Color, u32))
    ensures
        out.0@ == spec_tropical(noise_value as int, fragment@).0,
        out.1 as int == spec_tropical(noise_value as int, fragment@).1,
{
    let water_color_1 = Color::from_fixed(0, 500000, 800000);
    let water_color_2 = Color::from_fixed(100000, 600000, 900000);
    let land_color_1 = Color::from_fixed(200000, 800000, 300000);
    let land_color_2 = Color::from_fixed(800000, 800000, 200000);

    let land_threshold: i64 = 400000;
    let base_color = if noise_value > land_threshold {
        land_color_1.lerp(&land_color_2, band_fraction(noise_value, land_threshold, SCALE))
    } else {
        water_color_1.lerp(&water_color_2, band_fraction(noise_value, 0, land_threshold))
    };

    let light_position = Vec3Fx { x: SCALE, y: SCALE, z: 2 * SCALE };
    let diffuse = lambert(&fragment.normal, &vec3_sub(&light_position, &fragment.vertex_position));

    (base_color.scaled(fx_add(200000, fx_mul(800000, diffuse))), 0)
}

/// Ice-age world: white to blue ice above the ice threshold, dark cold water
/// below, with a crystalline highlight (the diffuse term raised to the power
/// three halves).
pub open spec fn spec_frozen(n: int, f: FragmentI) -> (ColorI, int) {
    let base = if n > 300000 {
        spec_lerp(
            color_of(800000, 900000, 950000),
            color_of(700000, 800000, 900000),
            spec_band_fraction(n, 300000, SCALE as int),
        )
    } else {
        color_of(200000, 300000, 500000)
    };
    let d = spec_lambert(f.normal, Vec3i { x: SCALE as int, y: SCALE as int, z: SCALE as int });
    let crystal = fmul(d, fsqrt(d));
    (spec_scale(base, fadd(300000, fmul(700000, crystal))), 0)
}

/// The frozen shader on an explicit noise sample.
pub fn frozen_color(fragment: &Fragment, noise_value: i64) -> (out: (Color, u32))
    ensures
        out.0@ == spec_frozen(noise_value as int, fragment@).0,
        out.1 as int == spec_frozen(noise_value as int, fragment@).1,
{
    let ice_color_1 = Color::from_fixed(800000, 900000, 950000);
    let ice_color_2 = Color::from_fixed(700000, 800000, 900000);
    let water_color = Color::from_fixed(200000, 300000, 500000);

    let ice_threshold: i64 = 300000;
    let base_color = if noise_value > ice_threshold {
        ice_color_1.lerp(&ice_color_2, band_fraction(noise_value, ice_threshold, SCALE))
    } else {
        water_color
    };

    let light_dir = Vec3Fx { x: SCALE, y: SCALE, z: SCALE };
    let diffuse = lambert(&fragment.normal, &light_dir);
    let crystal = fx_mul(diffuse, fx_sqrt(diffuse));

    (base_color.scaled(fx_add(300000, fx_mul(700000, crystal))), 0)
}

/// Desert world: light to dark sand above the terrain threshold, rocky
/// outcrops blending into sand below, under a strong overhead sun.
pub open spec fn spec_desert(n: int, f: FragmentI) -> (ColorI, int) {
    let base = if n > 500000 {
        spec_lerp(
            color_of(900000, 800000, 500000),
            color_of(800000, 600000, 300000),
            spec_band_fraction(n, 500000, SCALE as int),
        )
    } else {
        spec_lerp(
            color_of(500000, 400000, 300000),
            color_of(800000, 600000, 300000),
            spec_band_fraction(n, 0, 500000),
        )
    };
    let d = spec_lambert(f.normal, Vec3i { x: 0, y: SCALE as int, z: 500000 });
    (spec_scale(base, fadd(400000, fmul(600000, d))), 0)
}

/// The desert shader on an explicit noise sample.
pub fn desert_color(fragment: &Fragment, noise_value: i64) -> (out: (Color, u32))
    ensures
        out.0@ == spec_desert(noise_value as int, fragment@).0,
        out.1 as int == spec_desert(noise_value as int, fragment@).1,
{
    let sand_color_1 = Color::from_fixed(900000, 800000, 500000);
    let sand_color_2 = Color::from_fixed(800000, 600000, 300000);
    let rock_color = Color::from_fixed(500000, 400000, 300000);

    let terrain_threshold: i64 = 500000;
    let base_color = if noise_value > terrain_threshold {
        sand_color_1.lerp(&sand_color_2, band_fraction(noise_value, terrain_threshold, SCALE))
    } else {
        rock_color.lerp(&sand_color_2, band_fraction(noise_value, 0, terrain_threshold))
    };

    let light_dir = Vec3Fx { x: 0, y: SCALE, z: 500000 };
    let diffuse = lambert(&fragment.normal, &light_dir);

    (base_color.scaled(fx_add(400000, fx_mul(600000, diffuse))), 0)
}

/// Water world: the noise is remapped to a depth in `[0, 1]`; shallow water
/// blends into deep water above the depth threshold, deep water into trench
/// water below it, with a time-scrolling wave term added to the lighting
/// before the zero clamp.
pub open spec fn spec_ocean(n: int, f: FragmentI, time: int) -> (ColorI, int) {
    let depth = fmul(fadd(n, SCALE as int), 500000);
    let base = if depth > 700000 {
        spec_lerp(
            color_of(0, 500000, 800000),
            color_of(0, 200000, 500000),
            spec_band_fraction(depth, 700000, SCALE as int),
        )
    } else {
        spec_lerp(
            color_of(0, 200000, 500000),
            color_of(0, 100000, 300000),
            spec_band_fraction(depth, 0, 700000),
        )
    };
    let wave = fmul(spec_sin(fadd(time * 10000, fmul(n, 10000000))), 100000);
    let ones = Vec3i { x: SCALE as int, y: SCALE as int, z: SCALE as int };
    let d0 = spec_dot3(spec_normalize3(f.normal), spec_normalize3(ones));
    let diffuse = fmax0(fadd(d0, wave));
    (spec_scale(base, fadd(200000, fmul(800000, diffuse))), 0)
}

/// The ocean shader on an explicit noise sample.
pub fn ocean_color(fragment: &Fragment, noise_value: i64, time: u32) -> (out: (Color, u32))
    ensures
        out.0@ == spec_ocean(noise_value as int, fragment@, time as int).0,
        out.1 as int == spec_ocean(noise_value as int, fragment@, time as int).1,
{
    let shallow_water = Color::from_fixed(0, 500000, 800000);
    let deep_water = Color::from_fixed(0, 200000, 500000);
    let trench_water = Color::from_fixed(0, 100000, 300000);

    let depth: i64 = fx_mul(fx_add(noise_value, SCALE), 500000);
    let base_color = if depth > 700000 {
        shallow_water.lerp(&deep_water, band_fraction(depth, 700000, SCALE))
    } else {
        deep_water.lerp(&trench_water, band_fraction(depth, 0, 700000))
    };

    let wave_phase: i64 = fx_add((time as i64) * 10000, fx_mul(noise_value, 10000000));
    let wave_effect: i64 = fx_mul(fx_sin(wave_phase), 100000);
    let light_dir = Vec3Fx { x: SCALE, y: SCALE, z: SCALE };
    let d0 = dot3(&normalize3(&fragment.normal), &normalize3(&light_dir));
    let diffuse = fx_max0(fx_add(d0, wave_effect));

    (base_color.scaled(fx_add(200000, fx_mul(800000, diffuse))), 0)
}

/// Dense jungle world: light canopy blending into dark canopy above the
/// vegetation threshold, murky water below, with a slow periodic humidity
/// term added to the lighting factor.
pub open spec fn spec_jungle(n: int, f: FragmentI, time: int) -> (ColorI, int) {
    let base = if n > 200000 {
        spec_lerp(
            color_of(100000, 600000, 200000),
            color_of(0, 400000, 100000),
            spec_band_fraction(n, 200000, SCALE as int),
        )
    } else {
        color_of(200000, 300000, 100000)
    };
    let d = spec_lambert(f.normal, Vec3i { x: SCALE as int, y: SCALE as int, z: 500000 });
    let humidity = fmul(spec_sin(time * 1000), 100000);
    (spec_scale(base, fadd(fadd(300000, fmul(700000, d)), humidity)), 0)
}

/// The jungle shader on an explicit noise sample.
pub fn jungle_color(fragment: &Fragment, noise_value: i64, time: u32) -> (out: (Color, u32))
    ensures
        out.0@ == spec_jungle(noise_value as int, fragment@, time as int).0,
        out.1 as int == spec_jungle(noise_value as int, fragment@, time as int).1,
{
    let canopy_color_1 = Color::from_fixed(100000, 600000, 200000);
    let canopy_color_2 = Color::from_fixed(0, 400000, 100000);
    let water_color = Color::from_fixed(200000, 300000, 100000);

    let vegetation_threshold: i64 = 200000;
    let base_color = if noise_value > vegetation_threshold {
        canopy_color_1.lerp(&canopy_color_2, band_fraction(noise_value, vegetation_threshold, SCALE))
    } else {
        water_color
    };

    let light_dir = Vec3Fx { x: SCALE, y: SCALE, z: 500000 };
    let diffuse = lambert(&fragment.normal, &light_dir);
    let humidity: i64 = fx_mul(fx_sin((time as i64) * 1000), 100000);

    (base_color.scaled(fx_add(fx_add(300000, fx_mul(700000, diffuse)), humidity)), 0)
}

/// Volcanic world: bright lava above the lava threshold (with a fixed
/// emission of 50 for the bloom pass), dark rock blending into lighter rock
/// below, with a heat-shimmer term added to the diffuse light.
pub open spec fn spec_volcanic(n: int, f: FragmentI, time: int) -> (ColorI, int) {
    let base = if n > 700000 {
        color_of(900000, 300000, 100000)
    } else {
        spec_lerp(
            color_of(300000, 200000, 200000),
            color_of(500000, 300000, 200000),
            spec_band_fraction(n, 0, 700000),
        )
    };
    let glow: int = if n > 700000 {
        50
    } else {
        0
    };
    let d = spec_lambert(f.normal, Vec3i { x: 0, y: SCALE as int, z: SCALE as int });
    let heat = fmul(spec_sin(fadd(time * 2000, fmul(n, 5000000))), 100000);
    (spec_scale(base, fadd(200000, fmul(800000, fadd(d, heat)))), glow)
}

/// The volcanic shader on an explicit noise sample.  Emission is 50 exactly
/// when the noise sample exceeds the lava threshold of 0.7, else 0.
pub fn volcanic_color(fragment: &Fragment, noise_value: i64, time: u32) -> (out: (Color, u32))
    ensures
        out.0@ == spec_volcanic(noise_value as int, fragment@, time as int).0,
        out.1 as int == spec_volcanic(noise_value as int, fragment@, time as int).1,
        out.1 == (if noise_value > 700000 { 50u32 } else { 0u32 }),
{
    let lava_color = Color::from_fixed(900000, 300000, 100000);
    let rock_color_1 = Color::from_fixed(300000, 200000, 200000);
    let rock_color_2 = Color::from_fixed(500000, 300000, 200000);

    let lava_threshold: i64 = 700000;
    let base_color = if noise_value > lava_threshold {
        lava_color
    } else {
        rock_color_1.lerp(&rock_color_2, band_fraction(noise_value, 0, lava_threshold))
    };

    let glow: u32 = if noise_value > lava_threshold {
        50
    } else {
        0
    };

    let light_dir = Vec3Fx { x: 0, y: SCALE, z: SCALE };
    let diffuse = lambert(&fragment.normal, &light_dir);
    let heat_phase: i64 = fx_add((time as i64) * 2000, fx_mul(noise_value, 5000000));
    let heat_distortion: i64 = fx_mul(fx_sin(heat_phase), 100000);

    (base_color.scaled(fx_add(200000, fx_mul(800000, fx_add(diffuse, heat_distortion)))), glow)
}

/// Primordial world: steam clouds above the steam threshold, cooling lava
/// blending into basalt between the two thresholds, bare basalt below, with
/// an atmospheric-chaos term added to the diffuse light.  Emission is 20
/// above the terrain threshold.
pub open spec fn spec_ancient(n: int, f: FragmentI, time: int) -> (ColorI, int) {
    let base = if n > 800000 {
        color_of(700000, 700000, 700000)
    } else if n > 500000 {
        spec_lerp(
            color_of(800000, 400000, 100000),
            color_of(400000, 300000, 300000),
            spec_band_fraction(n, 500000, 800000),
        )
    } else {
        color_of(400000, 300000, 300000)
    };
    let d = spec_lambert(f.normal, Vec3i { x: SCALE as int, y: 500000, z: 0 });
    let chaos = fmul(spec_sin(fadd(time * 3000, fmul(n, 3000000))), 200000);
    let glow: int = if n > 500000 {
        20
    } else {
        0
    };
    (spec_scale(base, fadd(300000, fmul(700000, fadd(d, chaos)))), glow)
}

/// The ancient shader on an explicit noise sample.  Emission is 20 exactly
/// when the noise sample exceeds the terrain threshold of 0.5, else 0.
pub fn ancient_color(fragment: &Fragment, noise_value: i64, time: u32) -> (out: (Color, u32))
    ensures
        out.0@ == spec_ancient(noise_value as int, fragment@, time as int).0,
        out.1 as int == spec_ancient(noise_value as int, fragment@, time as int).1,
        out.1 == (if noise_value > 500000 { 20u32 } else { 0u32 }),
{
    let lava_color = Color::from_fixed(800000, 400000, 100000);
    let rock_color = Color::from_fixed(400000, 300000, 300000);
    let steam_color = Color::from_fixed(700000, 700000, 700000);

    let terrain_threshold: i64 = 500000;
    let steam_threshold: i64 = 800000;
    let base_color = if noise_value > steam_threshold {
        steam_color
    } else if noise_value > terrain_threshold {
        lava_color.lerp(&rock_color, band_fraction(noise_value, terrain_threshold, steam_threshold))
    } else {
        rock_color
    };

    let light_dir = Vec3Fx { x: SCALE, y: 500000, z: 0 };
    let diffuse = lambert(&fragment.normal, &light_dir);
    let chaos_phase: i64 = fx_add((time as i64) * 3000, fx_mul(noise_value, 3000000));
    let chaos: i64 = fx_mul(fx_sin(chaos_phase), 200000);

    let glow: u32 = if noise_value > terrain_threshold {
        20
    } else {
        0
    };

    (base_color.scaled(fx_add(300000, fx_mul(700000, fx_add(diffuse, chaos)))), glow)
}

// ---------------------------------------------------------------------------
// Per-biome noise sampling and the dispatch
// ---------------------------------------------------------------------------

/// Tropical shading at the fragment's own coordinates.
pub open spec fn spec_tropical_earth(f: FragmentI, u: UniformsI) -> (ColorI, int) {
    spec_tropical(spec_noise(u.noise_seed, f.vertex_position.x, f.vertex_position.y), f)
}

/// The tropical biome: noise sampled at the fragment's position.
pub fn tropical_earth_shader(fragment: &Fragment, uniforms: &Uniforms, _time: u32) -> (out: (
    Color,
    u32,
))
    ensures
        out.0@ == spec_tropical_earth(fragment@, uniforms@).0,
        out.1 as int == spec_tropical_earth(fragment@, uniforms@).1,
{
    let noise_value: i64 = uniforms.noise.get_noise_2d(
        fragment.vertex_position.x,
        fragment.vertex_position.y,
    );
    tropical_color(fragment, noise_value)
}

/// Frozen shading at twice the fragment's coordinate frequency.
pub open spec fn spec_frozen_earth(f: FragmentI, u: UniformsI) -> (ColorI, int) {
    spec_frozen(
        spec_noise(u.noise_seed, fmul(f.vertex_position.x, 2000000), fmul(f.vertex_position.y, 2000000)),
        f,
    )
}

/// The frozen biome: noise sampled at twice the fragment frequency.
pub fn frozen_earth_shader(fragment: &Fragment, uniforms: &Uniforms, _time: u32) -> (out: (
    Color,
    u32,
))
    ensures
        out.0@ == spec_frozen_earth(fragment@, uniforms@).0,
        out.1 as int == spec_frozen_earth(fragment@, uniforms@).1,
{
    let noise_value: i64 = uniforms.noise.get_noise_2d(
        fx_mul(fragment.vertex_position.x, 2000000),
        fx_mul(fragment.vertex_position.y, 2000000),
    );
    frozen_color(fragment, noise_value)
}

/// Desert shading at three times the fragment's coordinate frequency.
pub open spec fn spec_desert_earth(f: FragmentI, u: UniformsI) -> (ColorI, int) {
    spec_desert(
        spec_noise(u.noise_seed, fmul(f.vertex_position.x, 3000000), fmul(f.vertex_position.y, 3000000)),
        f,
    )
}

/// The desert biome: noise sampled at three times the fragment frequency.
pub fn desert_earth_shader(fragment: &Fragment, uniforms: &Uniforms, _time: u32) -> (out: (
    Color,
    u32,
))
    ensures
        out.0@ == spec_desert_earth(fragment@, uniforms@).0,
        out.1 as int == spec_desert_earth(fragment@, uniforms@).1,
{
    let noise_value: i64 = uniforms.noise.get_noise_2d(
        fx_mul(fragment.vertex_position.x, 3000000),
        fx_mul(fragment.vertex_position.y, 3000000),
    );
    desert_color(fragment, noise_value)
}

/// Ocean shading with the sampling point scrolled over time.
pub open spec fn spec_ocean_earth(f: FragmentI, u: UniformsI, time: int) -> (ColorI, int) {
    spec_ocean(
        spec_noise(
            u.noise_seed,
            fadd(f.vertex_position.x, time * 1000),
            fadd(f.vertex_position.y, time * 1000),
        ),
        f,
        time,
    )
}

/// The ocean biome: noise sampled at coordinates that drift with time.
pub fn ocean_earth_shader(fragment: &Fragment, uniforms: &Uniforms, time: u32) -> (out: (
    Color,
    u32,
))
    ensures
        out.0@ == spec_ocean_earth(fragment@, uniforms@, time as int).0,
        out.1 as int == spec_ocean_earth(fragment@, uniforms@, time as int).1,
{
    let drift: i64 = (time as i64) * 1000;
    let noise_value: i64 = uniforms.noise.get_noise_2d(
        fx_add(fragment.vertex_position.x, drift),
        fx_add(fragment.vertex_position.y, drift),
    );
    ocean_color(fragment, noise_value, time)
}

/// Jungle shading at four times the fragment's coordinate frequency.
pub open spec fn spec_jungle_earth(f: FragmentI, u: UniformsI, time: int) -> (ColorI, int) {
    spec_jungle(
        spec_noise(u.noise_seed, fmul(f.vertex_position.x, 4000000), fmul(f.vertex_position.y, 4000000)),
        f,
        time,
    )
}

/// The jungle biome: noise sampled at four times the fragment frequency.
pub fn jungle_earth_shader(fragment: &Fragment, uniforms: &Uniforms, time: u32) -> (out: (
    Color,
    u32,
))
    ensures
        out.0@ == spec_jungle_earth(fragment@, uniforms@, time as int).0,
        out.1 as int == spec_jungle_earth(fragment@, uniforms@, time as int).1,
{
    let noise_value: i64 = uniforms.noise.get_noise_2d(
        fx_mul(fragment.vertex_position.x, 4000000),
        fx_mul(fragment.vertex_position.y, 4000000),
    );
    jungle_color(fragment, noise_value, time)
}

/// Volcanic shading at twice the fragment's coordinate frequency.
pub open spec fn spec_volcanic_earth(f: FragmentI, u: UniformsI, time: int) -> (ColorI, int) {
    spec_volcanic(
        spec_noise(u.noise_seed, fmul(f.vertex_position.x, 2000000), fmul(f.vertex_position.y, 2000000)),
        f,
        time,
    )
}

/// The volcanic biome: noise sampled at twice the fragment frequency.
pub fn volcanic_earth_shader(fragment: &Fragment, uniforms: &Uniforms, time: u32) -> (out: (
    Color,
    u32,
))
    ensures
        out.0@ == spec_volcanic_earth(fragment@, uniforms@, time as int).0,
        out.1 as int == spec_volcanic_earth(fragment@, uniforms@, time as int).1,
{
    let noise_value: i64 = uniforms.noise.get_noise_2d(
        fx_mul(fragment.vertex_position.x, 2000000),
        fx_mul(fragment.vertex_position.y, 2000000),
    );
    volcanic_color(fragment, noise_value, time)
}

/// Ancient shading at one and a half times the fragment's frequency.
pub open spec fn spec_ancient_earth(f: FragmentI, u: UniformsI, time: int) -> (ColorI, int) {
    spec_ancient(
        spec_noise(u.noise_seed, fmul(f.vertex_position.x, 1500000), fmul(f.vertex_position.y, 1500000)),
        f,
        time,
    )
}

/// The ancient biome: noise sampled at one and a half times the fragment
/// frequency.
pub fn ancient_earth_shader(fragment: &Fragment, uniforms: &Uniforms, time: u32) -> (out: (
    Color,
    u32,
))
    ensures
        out.0@ == spec_ancient_earth(fragment@, uniforms@, time as int).0,
        out.1 as int == spec_ancient_earth(fragment@, uniforms@, time as int).1,
{
    let noise_value: i64 = uniforms.noise.get_noise_2d(
        fx_mul(fragment.vertex_position.x, 1500000),
        fx_mul(fragment.vertex_position.y, 1500000),
    );
    ancient_color(fragment, noise_value, time)
}

/// The color and emission of the all-black fallback for selectors outside
/// the biome table.
pub open spec fn spec_black() -> ColorI {
    ColorI { r: 0, g: 0, b: 0 }
}

/// The full fragment result: the biome picked by the selector, or black with
/// zero emission for a selector outside 1 through 7.
pub open spec fn spec_fragment_shader(f: FragmentI, u: UniformsI, time: int) -> (ColorI, int) {
    if u.current_shader == 1 {
        spec_tropical_earth(f, u)
    } else if u.current_shader == 2 {
        spec_ocean_earth(f, u, time)
    } else if u.current_shader == 3 {
        spec_frozen_earth(f, u)
    } else if u.current_shader == 4 {
        spec_volcanic_earth(f, u, time)
    } else if u.current_shader == 5 {
        spec_desert_earth(f, u)
    } else if u.current_shader == 6 {
        spec_ancient_earth(f, u, time)
    } else if u.current_shader == 7 {
        spec_jungle_earth(f, u, time)
    } else {
        (spec_black(), 0)
    }
}

/// The fragment shading dispatch: pick the biome named by the uniform
/// selector and shade this fragment with it; any selector outside 1 through
/// 7 yields black with zero emission.
pub fn fragment_shader(fragment: &Fragment, uniforms: &Uniforms, time: u32) -> (out: (Color, u32))
    ensures
        out.0@ == spec_fragment_shader(fragment@, uniforms@, time as int).0,
        out.1 as int == spec_fragment_shader(fragment@, uniforms@, time as int).1,
        !(1 <= uniforms.current_shader <= 7) ==> out.0@ == spec_black() && out.1 == 0,
{
    match uniforms.current_shader {
        1 => tropical_earth_shader(fragment, uniforms, time),
        3 => frozen_earth_shader(fragment, uniforms, time),
        5 => desert_earth_shader(fragment, uniforms, time),
        2 => ocean_earth_shader(fragment, uniforms, time),
        7 => jungle_earth_shader(fragment, uniforms, time),
        4 => volcanic_earth_shader(fragment, uniforms, time),
        6 => ancient_earth_shader(fragment, uniforms, time),
        _ => (Color::new(0, 0, 0), 0),
    }
}

// ---------------------------------------------------------------------------
// Laws
// ---------------------------------------------------------------------------

/// The identity matrix maps every in-range homogeneous vector to itself.
proof fn lemma_mat4_identity_mul(v: Vec4i)
    requires
        vec4_in_range(v),
    ensures
        spec_mat4_mul_vec4(mat4i_identity(), v) == v,
{
    lemma_fmul_one(v.x);
    lemma_fmul_one(v.y);
    lemma_fmul_one(v.z);
    lemma_fmul_one(v.w);
    lemma_fmul_zero(v.x);
    lemma_fmul_zero(v.y);
    lemma_fmul_zero(v.z);
    lemma_fmul_zero(v.w);
}

/// The identity matrix maps every in-range vector to itself.
proof fn lemma_mat3_identity_mul(v: Vec3i)
    requires
        vec3_in_range(v),
    ensures
        spec_mat3_mul_vec3(mat3i_identity(), v) == v,
{
    lemma_fmul_one(v.x);
    lemma_fmul_one(v.y);
    lemma_fmul_one(v.z);
    lemma_fmul_zero(v.x);
    lemma_fmul_zero(v.y);
    lemma_fmul_zero(v.z);
}

/// Inverting the identity matrix gives the identity matrix, exactly.
proof fn lemma_inverse3_identity()
    ensures
        spec_det3(mat3i_identity()) == SCALE as int,
        spec_inverse3(mat3i_identity()) == mat3i_identity(),
{
    lemma_fmul_one(SCALE as int);
    lemma_fmul_one(0);
    lemma_fmul_zero(SCALE as int);
    lemma_fmul_zero(0);
    assert(spec_det3(mat3i_identity()) == SCALE as int);
    lemma_fdiv_self(SCALE as int);
    lemma_fdiv_zero(SCALE as int);
}

/// With all four transform matrices set to the identity, the vertex
/// transform is the identity: the screen-space position equals the
/// object-space position and the transformed normal equals the object-space
/// normal, exactly.  (The clip-space `w` is one, so the perspective divide
/// is defined.)
pub proof fn lemma_identity_transform(u: UniformsI, p: Vec3i, n: Vec3i)
    requires
        u.model_matrix == mat4i_identity(),
        u.view_matrix == mat4i_identity(),
        u.projection_matrix == mat4i_identity(),
        u.viewport_matrix == mat4i_identity(),
        vec3_in_range(p),
        vec3_in_range(n),
    ensures
        spec_clip(u, p).w == SCALE as int,
        spec_screen_position(u, p) == p,
        spec_transformed_normal(u, n) == n,
{
    let ph = Vec4i { x: p.x, y: p.y, z: p.z, w: SCALE as int };
    lemma_mat4_identity_mul(ph);
    assert(spec_clip(u, p) == ph);
    lemma_fdiv_one(p.x);
    lemma_fdiv_one(p.y);
    lemma_fdiv_one(p.z);
    assert(spec_ndc(u, p) == ph);
    assert(spec_screen_position(u, p) == p);
    assert(spec_transpose3(spec_upper3(u.model_matrix)) == mat3i_identity());
    lemma_inverse3_identity();
    lemma_mat3_identity_mul(n);
}

/// A model matrix whose rotation/scale block is singular (fixed-point
/// determinant zero) leaves every in-range normal unchanged: the normal
/// matrix falls back to the identity rather than failing.
pub proof fn lemma_singular_model_fallback(u: UniformsI, n: Vec3i)
    requires
        spec_det3(spec_transpose3(spec_upper3(u.model_matrix))) == 0,
        vec3_in_range(n),
    ensures
        spec_normal_matrix(u) == mat3i_identity(),
        spec_transformed_normal(u, n) == n,
{
    lemma_mat3_identity_mul(n);
}

/// At the edges of a blend band the interpolation fraction is exact: at the
/// lower edge it is zero and the blend returns the first color; at the upper
/// edge it is one and the blend returns the second color.  (Within a band the
/// blended color therefore meets its endpoint colors with no jump at either
/// edge; distinct bands of a biome may still meet in distinct colors at a
/// shared threshold.)
pub proof fn lemma_band_edges(a: ColorI, b: ColorI, lo: int, hi: int)
    requires
        -(SCALE as int) <= lo < hi <= 2 * SCALE as int,
        0 <= a.r <= 255,
        0 <= a.g <= 255,
        0 <= a.b <= 255,
        0 <= b.r <= 255,
        0 <= b.g <= 255,
        0 <= b.b <= 255,
    ensures
        spec_band_fraction(lo, lo, hi) == 0,
        spec_band_fraction(hi, lo, hi) == SCALE as int,
        spec_lerp(a, b, spec_band_fraction(lo, lo, hi)) == a,
        spec_lerp(a, b, spec_band_fraction(hi, lo, hi)) == b,
{
    let d = fsub(hi, lo);
    assert(d == hi - lo);
    lemma_fdiv_zero(d);
    lemma_fdiv_self(d);
    lemma_lerp_endpoints(a, b);
}

} // verus!
