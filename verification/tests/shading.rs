//! The fragment shading dispatch and the biome shaders on concrete inputs.

use planet_shading::color::Color;
use planet_shading::fragment::Fragment;
use planet_shading::linalg::{mat4_identity, Vec3Fx};
use planet_shading::noise::NoiseFx;
use planet_shading::shaders::{
    ancient_color, ancient_earth_shader, band_fraction, desert_earth_shader, fragment_shader,
    frozen_earth_shader, jungle_earth_shader, ocean_earth_shader, tropical_color,
    tropical_earth_shader, volcanic_color, volcanic_earth_shader,
};
use planet_shading::Uniforms;

const ONE: i64 = 1_000_000;

fn uniforms_with(selector: u32, seed: u64) -> Uniforms {
    Uniforms {
        model_matrix: mat4_identity(),
        view_matrix: mat4_identity(),
        projection_matrix: mat4_identity(),
        viewport_matrix: mat4_identity(),
        current_shader: selector,
        noise: NoiseFx::new(seed),
    }
}

fn sample_fragment() -> Fragment {
    Fragment::new(
        Vec3Fx { x: ONE, y: ONE, z: ONE },
        Vec3Fx { x: 0, y: 0, z: ONE },
    )
}

#[test]
fn dispatch_reaches_each_biome() {
    let f = sample_fragment();
    let time = 100u32;
    for selector in 1u32..=7u32 {
        let u = uniforms_with(selector, 42);
        let got = fragment_shader(&f, &u, time);
        let expected = match selector {
            1 => tropical_earth_shader(&f, &u, time),
            2 => ocean_earth_shader(&f, &u, time),
            3 => frozen_earth_shader(&f, &u, time),
            4 => volcanic_earth_shader(&f, &u, time),
            5 => desert_earth_shader(&f, &u, time),
            6 => ancient_earth_shader(&f, &u, time),
            _ => jungle_earth_shader(&f, &u, time),
        };
        assert_eq!(got, expected, "selector {selector}");
    }
}

#[test]
fn dispatch_outside_the_table_is_black() {
    let f = sample_fragment();
    for selector in [0u32, 8, 99, u32::MAX] {
        let u = uniforms_with(selector, 42);
        assert_eq!(fragment_shader(&f, &u, 7), (Color::new(0, 0, 0), 0));
    }
}

#[test]
fn biome_shaders_use_their_own_noise_coordinates() {
    // The tropical shader samples noise at the raw fragment position; handing
    // the same sample to the explicit-noise shader reproduces the result.
    let f = sample_fragment();
    let u = uniforms_with(1, 7);
    let n = u.noise.get_noise_2d(f.vertex_position.x, f.vertex_position.y);
    assert_eq!(tropical_earth_shader(&f, &u, 0), tropical_color(&f, n));
}

#[test]
fn volcanic_emission_straddles_the_lava_threshold() {
    let f = sample_fragment();
    assert_eq!(volcanic_color(&f, 700_001, 0).1, 50);
    assert_eq!(volcanic_color(&f, 700_000, 0).1, 0);
    assert_eq!(volcanic_color(&f, 699_999, 0).1, 0);
    assert_eq!(volcanic_color(&f, -500_000, 0).1, 0);
    assert_eq!(volcanic_color(&f, ONE, 123).1, 50);
}

#[test]
fn ancient_emission_straddles_the_terrain_threshold() {
    let f = sample_fragment();
    assert_eq!(ancient_color(&f, 500_001, 0).1, 20);
    assert_eq!(ancient_color(&f, 500_000, 0).1, 0);
    assert_eq!(ancient_color(&f, 499_999, 0).1, 0);
    assert_eq!(ancient_color(&f, 900_000, 55).1, 20);
}

#[test]
fn most_biomes_never_emit() {
    let f = sample_fragment();
    let time = 3u32;
    for selector in [1u32, 2, 3, 5, 7] {
        for seed in [0u64, 1, 99, 123_456] {
            let u = uniforms_with(selector, seed);
            assert_eq!(fragment_shader(&f, &u, time).1, 0, "selector {selector} seed {seed}");
        }
    }
}

#[test]
fn tropical_scenario_at_full_light() {
    // Fragment at (1, 1, 1) with normal +z; the tropical light sits at
    // (1, 1, 2), so the light direction is exactly +z and the diffuse term is
    // exactly one, making the lighting factor 0.2 + 0.8 = 1.
    let f = sample_fragment();
    // Noise 0.6 is over the land threshold 0.4: the band fraction is
    // (0.6 - 0.4) / (1 - 0.4) = 0.333333 (truncated).
    assert_eq!(band_fraction(600_000, 400_000, ONE), 333_333);
    // Land colors: (0.2, 0.8, 0.3) -> (51, 204, 76) and
    // (0.8, 0.8, 0.2) -> (204, 204, 51); blending by 0.333333 gives
    // (101, 204, 68), and the lighting factor of one keeps it.
    let (color, emission) = tropical_color(&f, 600_000);
    assert_eq!(color, Color::new(101, 204, 68));
    assert_eq!(emission, 0);
}

#[test]
fn tropical_water_side_of_the_threshold() {
    let f = sample_fragment();
    // At the threshold exactly, the water band's fraction is one, so the base
    // color is the second water color (0.1, 0.6, 0.9) -> (25, 153, 229).
    let (color, _) = tropical_color(&f, 400_000);
    assert_eq!(color, Color::new(25, 153, 229));
    // Just above the threshold the land band's fraction is almost zero, so
    // the base color is the first land color (0.2, 0.8, 0.3) -> (51, 204, 76).
    let (color, _) = tropical_color(&f, 400_001);
    assert_eq!(color, Color::new(51, 204, 76));
}

#[test]
fn band_fraction_is_exact_at_the_edges() {
    assert_eq!(band_fraction(400_000, 400_000, ONE), 0);
    assert_eq!(band_fraction(ONE, 400_000, ONE), ONE);
    assert_eq!(band_fraction(300_000, 0, 300_000), ONE);
    assert_eq!(band_fraction(0, 0, 300_000), 0);
    assert_eq!(band_fraction(700_000, 400_000, ONE), 500_000);
}

#[test]
fn lerp_endpoints_are_exact() {
    let a = Color::new(51, 204, 76);
    let b = Color::new(204, 204, 51);
    assert_eq!(a.lerp(&b, 0), a);
    assert_eq!(a.lerp(&b, ONE), b);
    // Out-of-range fractions clamp to the endpoints.
    assert_eq!(a.lerp(&b, -500_000), a);
    assert_eq!(a.lerp(&b, 2 * ONE), b);
}

#[test]
fn color_scaling_clamps_channels() {
    let c = Color::new(100, 200, 255);
    assert_eq!(c.scaled(500_000), Color::new(50, 100, 127));
    assert_eq!(c.scaled(2 * ONE), Color::new(200, 255, 255));
    assert_eq!(c.scaled(-ONE), Color::new(0, 0, 0));
    assert_eq!(c.scaled(ONE), c);
}

#[test]
fn from_fixed_clamps_and_truncates() {
    assert_eq!(Color::from_fixed(200_000, 800_000, 300_000), Color::new(51, 204, 76));
    assert_eq!(Color::from_fixed(-100_000, 0, ONE), Color::new(0, 0, 255));
    assert_eq!(Color::from_fixed(2 * ONE, 999_999, 500_000), Color::new(255, 254, 127));
}

#[test]
fn noise_is_deterministic_and_in_range() {
    let noise = NoiseFx::new(12_345);
    let mut x: i64 = -5_000_000;
    while x <= 5_000_000 {
        let mut y: i64 = -5_000_000;
        while y <= 5_000_000 {
            let a = noise.get_noise_2d(x, y);
            let b = noise.get_noise_2d(x, y);
            assert_eq!(a, b);
            assert!(-ONE <= a && a <= ONE, "noise({x}, {y}) = {a}");
            y += 1_250_000;
        }
        x += 1_250_000;
    }
}

#[test]
fn noise_depends_on_the_seed_and_position() {
    // Not a law of the sampler, just evidence that it is not constant: over a
    // small grid, two seeds disagree somewhere and one seed takes at least
    // two values.
    let a = NoiseFx::new(1);
    let b = NoiseFx::new(2);
    let mut differs = false;
    let mut varies = false;
    let first = a.get_noise_2d(0, 0);
    for i in 0i64..16 {
        let x = i * 700_000;
        if a.get_noise_2d(x, -x) != b.get_noise_2d(x, -x) {
            differs = true;
        }
        if a.get_noise_2d(x, -x) != first {
            varies = true;
        }
    }
    assert!(differs);
    assert!(varies);
}
