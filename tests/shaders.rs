use planet_shaders::fixed::{div_floor, hermite, lerp, pow_unit, ratio, saturate, smoothstep, to_channel, ONE};
use planet_shaders::gas::{Gas, PlanetaGaseoso};
use planet_shaders::ice::Ice;
use planet_shaders::moon::Moon;
use planet_shaders::red::PlanetaRojo;
use planet_shaders::registry::{make_shader, Shader, ShaderKind};
use planet_shaders::rings::Rings;
use planet_shaders::shading::{diffuse, dot, isqrt, latitude, normalize, rim, to_color, wave01, Color, Vec3};

fn up() -> Vec3 {
    Vec3::new(0, ONE, 0)
}

fn forward() -> Vec3 {
    Vec3::new(0, 0, ONE)
}

fn transparent() -> Color {
    Color::rgba(0, 0, 0, 0)
}

#[test]
fn ring_hole_is_transparent_at_half_radius() {
    let rings = Rings::default();
    assert_eq!(rings.alpha(5000), 0);
    assert_eq!(rings.fragment(5000, 0, 0, 0, up(), up()), transparent());
}

#[test]
fn ring_band_visible_at_unit_radius() {
    let rings = Rings::default();
    assert_eq!(rings.alpha(ONE), 8500);
    let c = rings.fragment(ONE, 0, 0, 0, up(), up());
    assert!(c.a as u32 * 4 > 255);
    assert_eq!(c, Color::rgba(255, 188, 100, 216));
}

#[test]
fn ring_transparent_beyond_soft_edges() {
    let rings = Rings::default();
    for r in [0i64, 3000, 7099, 16801, 20000, 1_000_000] {
        assert_eq!(rings.alpha(r), 0);
        assert_eq!(rings.fragment(r, ONE, -ONE, -20000, up(), up()), transparent());
        assert_eq!(rings.fragment(r, 0, 0, 0, Vec3::new(0, -ONE, 0), up()), transparent());
    }
}

#[test]
fn ring_cutoff_drops_faint_pixels() {
    let rings = Rings::default();
    // Just inside the inner fade the opacity is positive but below 0.01.
    let a = rings.alpha(7102);
    assert!(a > 0 && a < 100);
    assert_eq!(rings.fragment(7102, 0, 0, 0, up(), up()), transparent());
}

#[test]
fn ring_non_positive_radii_fall_back_to_defaults() {
    let odd = Rings { inner: 0, outer: -5, tilt: 0 };
    let def = Rings::default();
    for r in [5000i64, 7200, ONE, 16400, 17000] {
        assert_eq!(odd.alpha(r), def.alpha(r));
    }
}

#[test]
fn ring_bias_follows_model_translation() {
    let rings = Rings::default();
    let far_left = rings.fragment(ONE, 0, 0, -20000, up(), up());
    let middle = rings.fragment(ONE, 0, 0, 0, up(), up());
    let right = rings.fragment(ONE, 0, 0, 10000, up(), up());
    let boundary = rings.fragment(ONE, 0, 0, -15000, up(), up());
    assert_eq!(far_left.g, 191);
    assert_eq!(middle.g, 188);
    assert_eq!(right.g, 183);
    assert_eq!(boundary, right);
}

#[test]
fn ring_deform_flattens_and_widens() {
    assert_eq!(Rings::deform(Vec3::new(ONE, ONE, -ONE)), Vec3::new(16000, 300, -16000));
}

#[test]
fn moon_offset_at_orbit_start() {
    let moon = Moon::default();
    assert_eq!(moon.offset(ONE, 0), Vec3::new(24000, 4500, 0));
    let p = moon.place(Vec3::new(1000, 2000, 3000), Vec3::new(0, 0, 0), ONE, 0);
    assert_eq!(p, Vec3::new(25000, 6500, 3000));
    let q = moon.place(Vec3::new(0, 0, 0), Vec3::new(ONE, ONE, ONE), 0, ONE);
    assert_eq!(q, Vec3::new(3500, 8000, 27500));
}

#[test]
fn moon_fragment_exact() {
    let moon = Moon::default();
    assert_eq!(moon.fragment(0, forward(), forward(), forward()), Color::rgba(153, 200, 231, 255));
}

#[test]
fn moon_rim_brightens_silhouette() {
    let moon = Moon::default();
    let facing = moon.fragment(0, forward(), forward(), forward());
    let edge = moon.fragment(0, forward(), forward(), up());
    assert!(edge.r > facing.r);
}

#[test]
fn gas_fragment_exact() {
    let gas = Gas::default();
    assert_eq!(gas.fragment(forward(), forward(), forward(), 0), Color::rgba(191, 153, 121, 255));
    let x = Vec3::new(ONE, 0, 0);
    assert_eq!(gas.fragment(x, x, x, 0), Color::rgba(195, 119, 75, 255));
}

#[test]
fn gas_band_phase_exact() {
    let gas = Gas::default();
    assert_eq!(gas.band_phase(Vec3::new(0, 0, 0), 0), 188496);
    assert_eq!(gas.band_phase(Vec3::new(0, -ONE, 0), ONE), 35000);
    let blue = PlanetaGaseoso::default();
    assert_eq!(blue.band_phase(Vec3::new(0, -ONE, 0), ONE), 40000);
    assert_eq!(Gas::lat_from_normal(up()), ONE);
    assert_eq!(PlanetaGaseoso::lat_from_normal(Vec3::new(0, 0, 0)), 5000);
}

#[test]
fn blue_gas_fragment_exact() {
    let blue = PlanetaGaseoso::default();
    // bands (0.05, 0.25, 0.80), fully lit, no spot, no rim
    assert_eq!(blue.fragment(forward(), forward(), forward(), 0), Color::rgba(12, 63, 204, 255));
}

#[test]
fn red_fragment_exact() {
    let red = PlanetaRojo::default();
    assert_eq!(red.fragment(0, 0, forward(), forward(), 0), Color::rgba(45, 12, 10, 255));
    assert_eq!(red.fragment(0, 9500, forward(), forward(), 0), Color::rgba(195, 57, 22, 255));
}

#[test]
fn ice_fragment_exact() {
    let ice = Ice::default();
    assert_eq!(ice.fragment(0, 0, forward(), forward(), 0), Color::rgba(10, 25, 15, 255));
    assert_eq!(ice.fragment(0, ONE, forward(), forward(), 0), Color::rgba(22, 17, 12, 255));
}

#[test]
fn ice_has_no_ambient_floor() {
    let ice = Ice::default();
    let back = Vec3::new(0, 0, -ONE);
    // unlit: 0.4 of the base colour
    assert_eq!(ice.fragment(0, 0, forward(), back, 0), Color::rgba(4, 10, 6, 255));
}

#[test]
fn fragments_are_deterministic() {
    let rings = Rings::default();
    let n = Vec3::new(1234, 8000, -300);
    let l = Vec3::new(5000, 5000, 7071);
    assert_eq!(rings.fragment(11000, 3000, -7000, 0, n, l), rings.fragment(11000, 3000, -7000, 0, n, l));
    let gas = Gas::default();
    assert_eq!(gas.fragment(n, l, up(), 4321), gas.fragment(n, l, up(), 4321));
    let ice = Ice::default();
    assert_eq!(ice.fragment(2500, 7000, n, l, 3000), ice.fragment(2500, 7000, n, l, 3000));
}

#[test]
fn diffuse_is_monotonic_and_floored() {
    let n = up();
    let mut last = -1i64;
    for y in [-ONE, -5000, 0, 2500, 5000, 9000, ONE] {
        let d = diffuse(n, Vec3::new(0, y, 0));
        assert!(d >= last);
        assert!(d >= 0 && d <= ONE);
        last = d;
    }
    assert_eq!(diffuse(n, Vec3::new(0, -ONE, 0)), 0);
    assert_eq!(diffuse(n, Vec3::new(0, 5000, 0)), 5000);
}

#[test]
fn channels_clamp_and_quantise() {
    assert_eq!(to_color(Vec3::new(-5000, 5000, 20000)), Color::rgba(0, 127, 255, 255));
    assert_eq!(to_channel(ONE), 255);
    assert_eq!(to_channel(i64::MIN), 0);
    assert_eq!(to_channel(i64::MAX), 255);
}

#[test]
fn fixed_point_primitives() {
    assert_eq!(saturate(-1), 0);
    assert_eq!(saturate(12000), ONE);
    assert_eq!(div_floor(-7, 2), -4);
    assert_eq!(div_floor(-8, 2), -4);
    assert_eq!(div_floor(7, 2), 3);
    assert_eq!(ratio(200, 400), 5000);
    assert_eq!(ratio(-1, 400), 0);
    assert_eq!(lerp(0, ONE, 2500), 2500);
    assert_eq!(lerp(0, 3, -5000), -2);
    assert_eq!(hermite(5000), 5000);
    assert_eq!(smoothstep(7500, 9500, 8500), 5000);
    assert_eq!(smoothstep(7500, 9500, 0), 0);
    assert_eq!(smoothstep(7500, 9500, 20000), ONE);
    assert_eq!(pow_unit(5000, 2), 2500);
    assert_eq!(pow_unit(5000, 0), ONE);
    assert_eq!(wave01(-ONE), 0);
    assert_eq!(wave01(ONE), ONE);
}

#[test]
fn lighting_terms() {
    assert_eq!(dot(Vec3::new(ONE, 2 * ONE, 0), Vec3::new(3 * ONE, ONE, 7)), 5 * ONE);
    assert_eq!(rim(up(), up(), 2), 0);
    assert_eq!(rim(up(), forward(), 2), ONE);
    assert_eq!(rim(up(), Vec3::new(0, 5000, 0), 2), 2500);
    assert_eq!(latitude(Vec3::new(0, -ONE, 0)), 0);
    assert_eq!(latitude(Vec3::new(0, 0, 0)), 5000);
}

#[test]
fn registry_builds_defaults() {
    assert_eq!(make_shader(ShaderKind::Rocky), Shader::Rocky);
    assert_eq!(make_shader(ShaderKind::Gas), Shader::Gas(Gas::default()));
    assert_eq!(make_shader(ShaderKind::Ice), Shader::Ice(Ice::default()));
    assert_eq!(make_shader(ShaderKind::Moon), Shader::Moon(Moon::default()));
    assert_eq!(make_shader(ShaderKind::Rings), Shader::Rings(Rings::default()));
    assert_eq!(make_shader(ShaderKind::GasBlue), Shader::GasBlue(PlanetaGaseoso::default()));
    assert_eq!(make_shader(ShaderKind::Red), Shader::Red(PlanetaRojo::default()));
    assert_eq!(Rings::default(), Rings { inner: 7500, outer: 16000, tilt: 4000 });
}

#[test]
fn shader_names() {
    assert_eq!(Rings::default().name(), "RingsShader_Orange");
    assert_eq!(Moon::default().name(), "MoonShader");
    assert_eq!(Gas::default().name(), "GasGiant");
    assert_eq!(PlanetaGaseoso::default().name(), "PlanetaGaseoso_AzulVibrante");
    assert_eq!(PlanetaRojo::default().name(), "PlanetaRojo");
    assert_eq!(Ice::default().name(), "IcePlanet_Green");
}

#[test]
fn square_root_and_normalize() {
    assert_eq!(isqrt(0), 0);
    assert_eq!(isqrt(15), 3);
    assert_eq!(isqrt(16), 4);
    assert_eq!(isqrt(3_000_000_000_000_000_000), 1_732_050_807);
    assert_eq!(normalize(Vec3::new(0, 0, 0)), Vec3::new(0, 0, 0));
    assert_eq!(normalize(Vec3::new(3, 4, 0)), Vec3::new(6000, 8000, 0));
    assert_eq!(normalize(Vec3::new(-2 * ONE, 0, 0)), Vec3::new(-ONE, 0, 0));
}

#[test]
fn ring_phases() {
    assert_eq!(Rings::band_phase(ONE, 0), 80000);
    assert_eq!(Rings::band_phase(5000, 1200), 41200);
    assert_eq!(Rings::streak_phase(ONE, -300), 1_199_700);
}

#[test]
fn registry_names() {
    assert_eq!(make_shader(ShaderKind::Rocky).name(), None);
    assert_eq!(make_shader(ShaderKind::Gas).name(), Some("GasGiant"));
    assert_eq!(make_shader(ShaderKind::Ice).name(), Some("IcePlanet_Green"));
    assert_eq!(make_shader(ShaderKind::Moon).name(), Some("MoonShader"));
    assert_eq!(make_shader(ShaderKind::Rings).name(), Some("RingsShader_Orange"));
    assert_eq!(make_shader(ShaderKind::GasBlue).name(), Some("PlanetaGaseoso_AzulVibrante"));
    assert_eq!(make_shader(ShaderKind::Red).name(), Some("PlanetaRojo"));
}

#[test]
fn ring_brighter_light_never_darkens() {
    let rings = Rings::default();
    let mut last = rings.fragment(ONE, 3000, -2000, 0, up(), Vec3::new(0, -ONE, 0));
    for y in [0i64, 2500, 5000, 7500, ONE] {
        let c = rings.fragment(ONE, 3000, -2000, 0, up(), Vec3::new(0, y, 0));
        assert_eq!(c.a, last.a);
        assert!(c.r >= last.r && c.g >= last.g && c.b >= last.b);
        last = c;
    }
}
