use planet_shaders::fixed::ONE;
use planet_shaders::gas::{Gas, PlanetaGaseoso};
use planet_shaders::ice::Ice;
use planet_shaders::moon::Moon;
use planet_shaders::red::PlanetaRojo;
use planet_shaders::rings::Rings;
use planet_shaders::shading::Vec3;
use planet_shaders::transform::{mat_mul, mat_vec, rotation_x, rotation_y, Mat4, Vec2, Vec4};

fn v4(x: i64, y: i64, z: i64, w: i64) -> Vec4 {
    Vec4 { x, y, z, w }
}

fn identity() -> Mat4 {
    Mat4 { r0: v4(ONE, 0, 0, 0), r1: v4(0, ONE, 0, 0), r2: v4(0, 0, ONE, 0), r3: v4(0, 0, 0, ONE) }
}

fn translation(x: i64, y: i64, z: i64) -> Mat4 {
    Mat4 { r0: v4(ONE, 0, 0, x), r1: v4(0, ONE, 0, y), r2: v4(0, 0, ONE, z), r3: v4(0, 0, 0, ONE) }
}

fn uv() -> Vec2 {
    Vec2 { x: 2500, y: 7500 }
}

#[test]
fn matrix_basics() {
    let v = v4(1000, -2000, 3000, ONE);
    assert_eq!(mat_vec(identity(), v), v);
    assert_eq!(mat_mul(identity(), translation(1, 2, 3)), translation(1, 2, 3));
    assert_eq!(mat_mul(translation(1, 2, 3), translation(10, 20, 30)), translation(11, 22, 33));
    // a quarter turn about Y takes +X to -Z
    assert_eq!(mat_vec(rotation_y(0, ONE), v4(ONE, 0, 0, ONE)), v4(0, 0, -ONE, ONE));
    // a quarter turn about X takes +Y to +Z
    assert_eq!(mat_vec(rotation_x(0, ONE), v4(0, ONE, 0, 0)), v4(0, 0, ONE, 0));
}

#[test]
fn gas_vertex_spins_about_y() {
    let gas = Gas::default();
    let p = Vec3::new(ONE, 0, 0);
    let n = Vec3::new(ONE, 0, 0);
    let still = gas.vertex(p, n, uv(), identity(), identity(), identity(), ONE, 0);
    assert_eq!(still.clip_pos, v4(ONE, 0, 0, ONE));
    assert_eq!(still.pos_ws, p);
    assert_eq!(still.nrm_ws, n);
    assert_eq!(still.uv, uv());
    let turned = PlanetaGaseoso::default().vertex(p, n, uv(), identity(), identity(), identity(), 0, ONE);
    assert_eq!(turned.pos_ws, Vec3::new(0, 0, -ONE));
    assert_eq!(turned.nrm_ws, Vec3::new(0, 0, -ONE));
}

#[test]
fn world_position_uses_the_composed_model() {
    let red = PlanetaRojo::default();
    let out = red.vertex(Vec3::new(0, 0, 0), Vec3::new(0, ONE, 0), uv(), translation(5000, 0, 0), identity(), identity(), 0, ONE);
    // the spin is applied after the translation, carrying the centre to -Z
    assert_eq!(out.pos_ws, Vec3::new(0, 0, -5000));
    assert_eq!(out.clip_pos, v4(0, 0, -5000, ONE));
    assert_eq!(out.nrm_ws, Vec3::new(0, ONE, 0));
}

#[test]
fn ring_vertex_flattens_and_points_up() {
    let rings = Rings::default();
    let out = rings.vertex(Vec3::new(ONE, ONE, 0), uv(), identity(), identity(), identity(), ONE, 0, ONE, 0);
    assert_eq!(out.pos_ws, Vec3::new(16000, 300, 0));
    assert_eq!(out.clip_pos, v4(16000, 300, 0, ONE));
    assert_eq!(out.nrm_ws, Vec3::new(0, ONE, 0));
}

#[test]
fn moon_vertex_at_orbit_start() {
    let moon = Moon::default();
    let n = Vec3::new(0, 0, ONE);
    let out = moon.vertex(Vec3::new(0, 0, 0), n, uv(), translation(1000, 2000, 3000), identity(), identity(), ONE, 0);
    assert_eq!(out.pos_ws, Vec3::new(25000, 6500, 3000));
    assert_eq!(out.clip_pos, v4(25000, 6500, 3000, ONE));
    assert_eq!(out.nrm_ws, n);
    assert_eq!(Moon::orbit_angle(0), 0);
}

#[test]
fn ice_vertex_composes_both_rotations() {
    let ice = Ice::default();
    let p = Vec3::new(ONE, 0, 0);
    let still = ice.vertex(p, p, uv(), identity(), identity(), identity(), ONE, 0, ONE, 0);
    assert_eq!(still.pos_ws, p);
    // two quarter turns make a half turn
    let half = ice.vertex(p, p, uv(), identity(), identity(), identity(), 0, ONE, 0, ONE);
    assert_eq!(half.pos_ws, Vec3::new(-ONE, 0, 0));
}

#[test]
fn spin_angles() {
    assert_eq!(Gas::spin_angle(2 * ONE, 5000), 7000);
    assert_eq!(PlanetaGaseoso::spin_angle(ONE, ONE), 7000);
    assert_eq!(Rings::spin_angle(ONE, ONE), 7000);
    assert_eq!(Moon::orbit_angle(ONE), 4000);
    assert_eq!(PlanetaRojo::default().spin_angle(ONE), 4500);
    assert_eq!(Ice::orbit_angle(ONE, ONE), 6000);
    assert_eq!(Ice::default().spin_angle(2 * ONE), 7000);
}

#[test]
fn vertex_normals_come_back_unit_length() {
    let long = Vec3::new(0, 2 * ONE, 0);
    let gas = Gas::default().vertex(Vec3::new(ONE, 0, 0), long, uv(), identity(), identity(), identity(), ONE, 0);
    assert_eq!(gas.nrm_ws, Vec3::new(0, ONE, 0));
    let blue = PlanetaGaseoso::default().vertex(Vec3::new(ONE, 0, 0), long, uv(), identity(), identity(), identity(), ONE, 0);
    assert_eq!(blue.nrm_ws, Vec3::new(0, ONE, 0));
    let red = PlanetaRojo::default().vertex(Vec3::new(0, 0, 0), Vec3::new(3 * ONE, 0, 4 * ONE), uv(), identity(), identity(), identity(), ONE, 0);
    assert_eq!(red.nrm_ws, Vec3::new(6000, 0, 8000));
    let ice = Ice::default().vertex(Vec3::new(0, 0, 0), long, uv(), identity(), identity(), identity(), ONE, 0, ONE, 0);
    assert_eq!(ice.nrm_ws, Vec3::new(0, ONE, 0));
    let moon = Moon::default().vertex(Vec3::new(0, 0, 0), Vec3::new(0, 0, -5 * ONE), uv(), identity(), identity(), identity(), ONE, 0);
    assert_eq!(moon.nrm_ws, Vec3::new(0, 0, -ONE));
}

#[test]
fn scaled_model_normal_is_renormalised() {
    let scale = Mat4 { r0: v4(2 * ONE, 0, 0, 0), r1: v4(0, 2 * ONE, 0, 0), r2: v4(0, 0, 2 * ONE, 0), r3: v4(0, 0, 0, ONE) };
    let out = Gas::default().vertex(Vec3::new(ONE, 0, 0), Vec3::new(ONE, 0, 0), uv(), scale, identity(), identity(), ONE, 0);
    assert_eq!(out.pos_ws, Vec3::new(2 * ONE, 0, 0));
    assert_eq!(out.nrm_ws, Vec3::new(ONE, 0, 0));
}
