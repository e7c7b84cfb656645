use vstd::prelude::*;
use crate::transform::{
    lemma_small_product_bounded, m4bounded, mat_mul, mat_mul_spec, project, project_spec, projectable, rotation_x,
    rotation_x_spec, rotation_y, rotation_y_spec, spin_angle, spin_angle_spec, Mat4, Vec2,
    VertexOut,
};
use crate::fixed::{
    bounded, channel_spec, fmul, fmul_spec, lemma_fmul_bound, lemma_fmul_unit, ratio, ratio_spec,
    saturate, saturate_spec, to_channel, unit, LIMIT, ONE,
};
use crate::shading::{lemma_channel_in_range, noise_ok, diffuse, diffuse_spec, dot_spec, vbounded, wave01, wave01_spec, Color, Vec3};

verus! {

/// Inner radius used when the configured one is not positive (0.75).
pub const DEFAULT_INNER: i64 = 7500;

/// Outer radius used when the configured one is not positive (1.6).
pub const DEFAULT_OUTER: i64 = 16000;

/// Width of the soft rise at the inner edge (0.04).
pub const INNER_FADE: i64 = 400;

/// Width of the soft fall at the outer edge (0.08).
pub const OUTER_FADE: i64 = 800;

/// Largest radius, and largest configured ring radius, the shader accepts.
pub const RADIUS_MAX: i64 = 250_000_000;

/// Alpha below which the pixel is dropped altogether (0.01).
pub const ALPHA_CUTOFF: i64 = 100;

/// Ring system: a flattened, widened disk carved into a soft annulus.
#[derive(Clone, Copy, Debug, PartialEq, Eq, Structural)]
pub struct Rings {
    /// Inner radius.
    pub inner: i64,
    /// Outer radius.
    pub outer: i64,
    /// Tilt about the X axis, in radians.
    pub tilt: i64,
}

/// A configured radius, or the default when it is not positive.
pub open spec fn effective_radius(v: int, default: int) -> int {
    if v > 0 {
        v
    } else {
        default
    }
}

/// Opacity of the ring at distance `r` from its centre.
pub open spec fn ring_alpha_spec(inner_param: int, outer_param: int, r: int) -> int {
    let inner = effective_radius(inner_param, DEFAULT_INNER as int);
    let outer = effective_radius(outer_param, DEFAULT_OUTER as int);
    let edge_in = ratio_spec(r - (inner - INNER_FADE), INNER_FADE as int);
    let edge_out = ONE - ratio_spec(r - outer, OUTER_FADE as int);
    let band_alpha = saturate_spec(fmul_spec(edge_in, edge_out));
    let dust = saturate_spec(ONE - fmul_spec(r - inner, 8000));
    fmul_spec(band_alpha, 2500 + fmul_spec(7500, dust))
}

/// A mesh point flattened to 3% of its height and widened by 1.6 in the plane.
pub open spec fn ring_deform_spec(p: Vec3) -> Vec3 {
    Vec3 {
        x: fmul_spec(p.x as int, 16000) as i64,
        y: fmul_spec(p.y as int, 300) as i64,
        z: fmul_spec(p.z as int, 16000) as i64,
    }
}

/// Colour bias by the model's X translation: red and green parts.
pub open spec fn ring_bias_spec(tx: int) -> (int, int) {
    if tx < -15000 {
        (600, 300)
    } else if -15000 < tx && tx < 5000 {
        (400, 200)
    } else {
        (0, 0)
    }
}

/// Lighting factor of the ring: diffuse scaled by 0.9 over an ambient floor of 0.1.
pub open spec fn ring_light_spec(d: int) -> int {
    fmul_spec(diffuse_spec(d), 9000) + 1000
}

/// One lit channel of the ring before clamping: palette mix by the bands, streak
/// brightness, positional bias, lighting.
pub open spec fn ring_channel_spec(a: int, b: int, bias: int, bands: int, streaks: int, light: int) -> int {
    let base = a + fmul_spec(b - a, bands);
    fmul_spec(fmul_spec(base, 9000 + fmul_spec(4500, streaks)) + bias, light)
}

/// The ring's pixel where it is visible.
pub open spec fn ring_color_spec(
    alpha: int,
    band_wave: int,
    streak_wave: int,
    tx: int,
    d: int,
) -> Color {
    let bands = wave01_spec(band_wave);
    let streaks = wave01_spec(streak_wave);
    let light = ring_light_spec(d);
    let bias = ring_bias_spec(tx);
    Color {
        r: channel_spec(ring_channel_spec(10000, 9500, bias.0, bands, streaks, light)) as u8,
        g: channel_spec(ring_channel_spec(7800, 5000, bias.1, bands, streaks, light)) as u8,
        b: channel_spec(ring_channel_spec(5500, 1500, 0, bands, streaks, light)) as u8,
        a: (alpha * 255 / (ONE as int)) as u8,
    }
}

/// One lit channel of the ring before clamping.
fn ring_channel(a: i64, b: i64, bias: i64, bands: i64, streaks: i64, light: i64) -> (r: i64)
    requires
        unit(a as int),
        unit(b as int),
        unit(bias as int),
        unit(bands as int),
        unit(streaks as int),
        unit(light as int),
    ensures
        r == ring_channel_spec(a as int, b as int, bias as int, bands as int, streaks as int, light as int),
{
    proof {
        lemma_fmul_bound(b - a, bands as int, 10000, 10000);
        lemma_fmul_bound(4500, streaks as int, 4500, 10000);
    }
    let base = a + fmul(b - a, bands);
    let shade = 9000 + fmul(4500, streaks);
    proof {
        lemma_fmul_bound(base as int, shade as int, 20000, 13500);
    }
    let lit = fmul(base, shade) + bias;
    proof {
        lemma_fmul_bound(lit as int, light as int, 37000, 10000);
    }
    fmul(lit, light)
}

impl Rings {
    /// Inner 0.75, outer 1.6, tilt 0.4.
    pub fn default() -> (r: Rings)
        ensures
            r == (Rings { inner: DEFAULT_INNER, outer: DEFAULT_OUTER, tilt: 4000 }),
    {
        Rings { inner: DEFAULT_INNER, outer: DEFAULT_OUTER, tilt: 4000 }
    }

    pub fn name(&self) -> (r: &'static str)
        ensures
            r@ == "RingsShader_Orange"@,
    {
        "RingsShader_Orange"
    }

    /// Radii small enough for the shader's arithmetic.
    pub open spec fn wf(&self) -> bool {
        self.inner <= RADIUS_MAX && self.outer <= RADIUS_MAX
    }

    /// Flattens a mesh position to 3% of its height and widens it by 1.6 in the plane.
    pub fn deform(p: Vec3) -> (r: Vec3)
        requires
            vbounded(p),
        ensures
            r == ring_deform_spec(p),
    {
        proof {
            lemma_fmul_bound(p.x as int, 16000, LIMIT as int, 16000);
            lemma_fmul_bound(p.y as int, 300, LIMIT as int, 300);
            lemma_fmul_bound(p.z as int, 16000, LIMIT as int, 16000);
        }
        Vec3 { x: fmul(p.x, 16000), y: fmul(p.y, 300), z: fmul(p.z, 16000) }
    }

    /// Opacity at distance `r` from the ring's centre: soft inner and outer edges times
    /// a dust term that is densest at the inner edge.
    pub fn alpha(&self, r: i64) -> (a: i64)
        requires
            self.wf(),
            0 <= r <= RADIUS_MAX,
        ensures
            a == ring_alpha_spec(self.inner as int, self.outer as int, r as int),
            unit(a as int),
    {
        let inner = if self.inner > 0 { self.inner } else { DEFAULT_INNER };
        let outer = if self.outer > 0 { self.outer } else { DEFAULT_OUTER };
        let edge_in = ratio(r - (inner - INNER_FADE), INNER_FADE);
        let edge_out = ONE - ratio(r - outer, OUTER_FADE);
        proof {
            lemma_fmul_unit(edge_in as int, edge_out as int);
            lemma_fmul_bound((r - inner) as int, 8000, RADIUS_MAX as int, 8000);
        }
        let band_alpha = saturate(fmul(edge_in, edge_out));
        let dust = saturate(ONE - fmul(r - inner, 8000));
        proof {
            lemma_fmul_unit(7500, dust as int);
        }
        let weight = 2500 + fmul(7500, dust);
        proof {
            lemma_fmul_unit(band_alpha as int, weight as int);
        }
        fmul(band_alpha, weight)
    }

    /// Pixel of the ring at distance `r` from its centre. `band_wave` and `streak_wave`
    /// are the sines of the coarse band and fine streak phases, `model_tx` the model's
    /// X translation, `n` and `l` the normal and the light direction. Where the ring's
    /// opacity is below 0.01 the pixel is transparent black.
    pub fn fragment(
        &self,
        r: i64,
        band_wave: i64,
        streak_wave: i64,
        model_tx: i64,
        n: Vec3,
        l: Vec3,
    ) -> (c: Color)
        requires
            self.wf(),
            0 <= r <= RADIUS_MAX,
            -ONE <= band_wave <= ONE,
            -ONE <= streak_wave <= ONE,
            vbounded(n),
            vbounded(l),
        ensures
            ring_alpha_spec(self.inner as int, self.outer as int, r as int) < ALPHA_CUTOFF
                ==> c == Color::transparent(),
            ring_alpha_spec(self.inner as int, self.outer as int, r as int) >= ALPHA_CUTOFF
                ==> c == ring_color_spec(
                ring_alpha_spec(self.inner as int, self.outer as int, r as int),
                band_wave as int,
                streak_wave as int,
                model_tx as int,
                dot_spec(n, l),
            ),
    {
        let bands = wave01(band_wave);
        let streaks = wave01(streak_wave);
        let (bias_r, bias_g): (i64, i64) = if model_tx < -15000 {
            (600, 300)
        } else if model_tx > -15000 && model_tx < 5000 {
            (400, 200)
        } else {
            (0, 0)
        };
        let alpha = self.alpha(r);
        if alpha < ALPHA_CUTOFF {
            return Color::rgba(0, 0, 0, 0);
        }
        let d = diffuse(n, l);
        proof {
            lemma_fmul_bound(d as int, 9000, 10000, 9000);
        }
        let light = fmul(d, 9000) + 1000;
        let cr = ring_channel(10000, 9500, bias_r, bands, streaks, light);
        let cg = ring_channel(7800, 5000, bias_g, bands, streaks, light);
        let cb = ring_channel(5500, 1500, 0, bands, streaks, light);
        assert(alpha * 255 / 10000 <= 255) by (nonlinear_arith)
            requires
                0 <= alpha <= 10000,
        ;
        let a: i64 = alpha * 255 / ONE;
        Color::rgba(to_channel(cr), to_channel(cg), to_channel(cb), a as u8)
    }

    /// Angle of the ring's spin: time times the scene's rotation speed times 0.7.
    pub fn spin_angle(time: i64, rotation_speed: i64) -> (r: i64)
        requires
            bounded(time as int),
            bounded(rotation_speed as int),
            bounded(fmul_spec(time as int, rotation_speed as int)),
        ensures
            r == spin_angle_spec(time as int, rotation_speed as int, 7000),
    {
        spin_angle(time, rotation_speed, 7000)
    }

    /// Vertex stage: the mesh is flattened into a disk, the spin (`c`, `s`) and the
    /// tilt (`tc`, `ts`, cosine and sine of `tilt`) are applied after the model matrix,
    /// then view and projection. The normal is the disk's up vector.
    pub fn vertex(
        &self,
        pos: Vec3,
        uv: Vec2,
        model: Mat4,
        view: Mat4,
        proj: Mat4,
        c: i64,
        s: i64,
        tc: i64,
        ts: i64,
    ) -> (o: VertexOut)
        requires
            vbounded(pos),
            m4bounded(model),
            -ONE <= c <= ONE,
            -ONE <= s <= ONE,
            -ONE <= tc <= ONE,
            -ONE <= ts <= ONE,
            projectable(
                mat_mul_spec(mat_mul_spec(rotation_y_spec(c, s), rotation_x_spec(tc, ts)), model),
                view,
                proj,
                ring_deform_spec(pos),
                Vec3 { x: 0, y: ONE, z: 0 },
            ),
        ensures
            o == (VertexOut {
                nrm_ws: Vec3 { x: 0, y: ONE, z: 0 },
                ..project_spec(
                    mat_mul_spec(mat_mul_spec(rotation_y_spec(c, s), rotation_x_spec(tc, ts)), model),
                    view,
                    proj,
                    ring_deform_spec(pos),
                    Vec3 { x: 0, y: ONE, z: 0 },
                    uv,
                )
            }),
    {
        let p = Self::deform(pos);
        proof {
            lemma_small_product_bounded(rotation_y_spec(c, s), rotation_x_spec(tc, ts));
        }
        let spun = mat_mul(rotation_y(c, s), rotation_x(tc, ts));
        let composed = mat_mul(spun, model);
        let up = Vec3 { x: 0, y: ONE, z: 0 };
        let out = project(composed, view, proj, p, up, uv);
        VertexOut { nrm_ws: up, ..out }
    }

    /// Phase of the coarse bands at radius `r`: eight per unit of radius, shifted by
    /// the fractal-noise sample `noise`.
    pub fn band_phase(r: i64, noise: i64) -> (p: i64)
        requires
            0 <= r <= RADIUS_MAX,
            noise_ok(noise as int),
        ensures
            p == fmul_spec(r as int, 80000) + noise,
    {
        proof {
            lemma_fmul_bound(r as int, 80000, RADIUS_MAX as int, 80000);
        }
        fmul(r, 80000) + noise
    }

    /// Phase of the fine streaks at radius `r`: 120 per unit of radius, shifted by the
    /// fractal-noise sample `noise`.
    pub fn streak_phase(r: i64, noise: i64) -> (p: i64)
        requires
            0 <= r <= RADIUS_MAX,
            noise_ok(noise as int),
        ensures
            p == fmul_spec(r as int, 1_200_000) + noise,
    {
        proof {
            lemma_fmul_bound(r as int, 1_200_000, RADIUS_MAX as int, 1_200_000);
        }
        fmul(r, 1_200_000) + noise
    }
}

proof fn lemma_ring_light_monotonic(d1: int, d2: int)
    requires
        d1 <= d2,
    ensures
        1000 <= ring_light_spec(d1) <= ring_light_spec(d2),
{
    let a = diffuse_spec(d1);
    let b = diffuse_spec(d2);
    assert(0 <= a * 9000 <= b * 9000) by (nonlinear_arith)
        requires
            0 <= a <= b,
    ;
    vstd::arithmetic::div_mod::lemma_div_is_ordered(0, a * 9000, ONE as int);
    vstd::arithmetic::div_mod::lemma_div_is_ordered(a * 9000, b * 9000, ONE as int);
}

proof fn lemma_ring_channel_monotonic(a: int, b: int, bias: int, bands: int, streaks: int, l1: int, l2: int)
    requires
        unit(a),
        unit(b),
        unit(bands),
        unit(streaks),
        0 <= bias,
        0 <= l1 <= l2,
    ensures
        channel_spec(ring_channel_spec(a, b, bias, bands, streaks, l1))
            <= channel_spec(ring_channel_spec(a, b, bias, bands, streaks, l2)),
{
    // the unlit base colour is non-negative
    let m = fmul_spec(b - a, bands);
    if b < a {
        assert((b - a) * ONE <= (b - a) * bands) by (nonlinear_arith)
            requires
                b < a,
                bands <= ONE,
        ;
        vstd::arithmetic::div_mod::lemma_div_is_ordered((b - a) * ONE, (b - a) * bands, ONE as int);
        vstd::arithmetic::div_mod::lemma_div_multiples_vanish(b - a, ONE as int);
        assert((b - a) * ONE == ONE * (b - a));
    } else {
        assert(0 <= (b - a) * bands) by (nonlinear_arith)
            requires
                a <= b,
                0 <= bands,
        ;
        vstd::arithmetic::div_mod::lemma_div_is_ordered(0, (b - a) * bands, ONE as int);
    }
    let base = a + m;
    assert(base >= 0);
    lemma_fmul_unit(4500, streaks);
    let shade = 9000 + fmul_spec(4500, streaks);
    assert(0 <= base * shade) by (nonlinear_arith)
        requires
            0 <= base,
            0 <= shade,
    ;
    vstd::arithmetic::div_mod::lemma_div_is_ordered(0, base * shade, ONE as int);
    let x = fmul_spec(base, shade) + bias;
    assert(0 <= x);
    assert(x * l1 <= x * l2) by (nonlinear_arith)
        requires
            0 <= x,
            l1 <= l2,
    ;
    vstd::arithmetic::div_mod::lemma_div_is_ordered(x * l1, x * l2, ONE as int);
    let s1 = saturate_spec(fmul_spec(x, l1));
    let s2 = saturate_spec(fmul_spec(x, l2));
    assert(s1 * 255 <= s2 * 255) by (nonlinear_arith)
        requires
            s1 <= s2,
    ;
    vstd::arithmetic::div_mod::lemma_div_is_ordered(s1 * 255, s2 * 255, ONE as int);
}

/// On the ring, better lighting never darkens a pixel: a larger normal-light dot
/// product gives the same alpha and no smaller colour channel.
pub proof fn lemma_ring_lighting_monotonic(alpha: int, band_wave: int, streak_wave: int, tx: int, d1: int, d2: int)
    requires
        -ONE <= band_wave <= ONE,
        -ONE <= streak_wave <= ONE,
        d1 <= d2,
    ensures
        ring_color_spec(alpha, band_wave, streak_wave, tx, d1).a
            == ring_color_spec(alpha, band_wave, streak_wave, tx, d2).a,
        ring_color_spec(alpha, band_wave, streak_wave, tx, d1).r
            <= ring_color_spec(alpha, band_wave, streak_wave, tx, d2).r,
        ring_color_spec(alpha, band_wave, streak_wave, tx, d1).g
            <= ring_color_spec(alpha, band_wave, streak_wave, tx, d2).g,
        ring_color_spec(alpha, band_wave, streak_wave, tx, d1).b
            <= ring_color_spec(alpha, band_wave, streak_wave, tx, d2).b,
{
    lemma_fmul_bound(band_wave, 5000, 10000, 5000);
    lemma_fmul_bound(streak_wave, 5000, 10000, 5000);
    let bands = wave01_spec(band_wave);
    let streaks = wave01_spec(streak_wave);
    lemma_ring_light_monotonic(d1, d2);
    let l1 = ring_light_spec(d1);
    let l2 = ring_light_spec(d2);
    let bias = ring_bias_spec(tx);
    lemma_ring_channel_monotonic(10000, 9500, bias.0, bands, streaks, l1, l2);
    lemma_ring_channel_monotonic(7800, 5000, bias.1, bands, streaks, l1, l2);
    lemma_ring_channel_monotonic(5500, 1500, 0, bands, streaks, l1, l2);
    lemma_channel_in_range(ring_channel_spec(10000, 9500, bias.0, bands, streaks, l1));
    lemma_channel_in_range(ring_channel_spec(10000, 9500, bias.0, bands, streaks, l2));
    lemma_channel_in_range(ring_channel_spec(7800, 5000, bias.1, bands, streaks, l1));
    lemma_channel_in_range(ring_channel_spec(7800, 5000, bias.1, bands, streaks, l2));
    lemma_channel_in_range(ring_channel_spec(5500, 1500, 0, bands, streaks, l1));
    lemma_channel_in_range(ring_channel_spec(5500, 1500, 0, bands, streaks, l2));
}

/// Beyond the soft edges, inside `inner - 0.04` or outside `outer + 0.08`, the ring
/// has no opacity at all.
pub proof fn lemma_ring_transparent_outside(inner_param: int, outer_param: int, r: int)
    requires
        r < effective_radius(inner_param, DEFAULT_INNER as int) - INNER_FADE
            || r > effective_radius(outer_param, DEFAULT_OUTER as int) + OUTER_FADE,
    ensures
        ring_alpha_spec(inner_param, outer_param, r) == 0,
        ring_alpha_spec(inner_param, outer_param, r) < ALPHA_CUTOFF,
{
    let inner = effective_radius(inner_param, DEFAULT_INNER as int);
    let outer = effective_radius(outer_param, DEFAULT_OUTER as int);
    let num_in = r - (inner - INNER_FADE);
    let num_out = r - outer;
    let edge_in = ratio_spec(num_in, INNER_FADE as int);
    let edge_out = ONE - ratio_spec(num_out, OUTER_FADE as int);
    if num_in < 0 {
        assert(num_in * ONE < 0) by (nonlinear_arith)
            requires
                num_in < 0,
        ;
        vstd::arithmetic::div_mod::lemma_div_is_ordered(num_in * ONE, -1, INNER_FADE as int);
        assert(edge_in == 0);
    } else {
        assert(num_out * ONE >= 801 * ONE) by (nonlinear_arith)
            requires
                num_out >= 801,
        ;
        vstd::arithmetic::div_mod::lemma_div_is_ordered(801 * ONE, num_out * ONE, OUTER_FADE as int);
        assert(edge_out == 0);
    }
    assert(fmul_spec(edge_in, edge_out) == 0);
    let dust = saturate_spec(ONE - fmul_spec(r - inner, 8000));
    assert(fmul_spec(0, 2500 + fmul_spec(7500, dust)) == 0);
}

} // verus!
