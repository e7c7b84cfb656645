use vstd::prelude::*;
use crate::transform::{
    m4bounded, mat_mul, mat_mul_spec, project, project_spec, projectable, rotation_y,
    rotation_y_spec, spin_angle, spin_angle_spec, Mat4, Vec2, VertexOut,
};
use crate::fixed::{
    bounded, fmul, fmul_spec, lemma_fmul_bound, lemma_fmul_unit, pow_spec, pow_unit,
    saturate, saturate_spec, unit, LIMIT, ONE,
};
use crate::shading::{
    clamp01, color_spec, dot_spec, planet_light, planet_light_spec, latitude, latitude_spec, rim,
    rim_spec, to_color, vbounded, vunit, wave01, wave01_spec, Color, Vec3,
};


verus! {

/// A full turn, 2π, in fixed point.
pub const TAU: i64 = 62832;

/// Constants that set a banded gas giant's look.
pub struct BandStyle {
    /// Band contrast stretch around 0.5.
    pub contrast: i64,
    /// Falloff exponent of the great spot facing +X.
    pub spot_power: u32,
    /// Strength of the great spot.
    pub spot_amount: i64,
    pub spot_tint: Vec3,
    /// Strength of the rim light.
    pub rim_amount: i64,
    pub rim_tint: Vec3,
}

pub open spec fn style_wf(s: BandStyle) -> bool {
    0 <= s.contrast <= 2 * ONE && unit(s.spot_amount as int)
        && vunit(s.spot_tint) && unit(s.rim_amount as int) && vunit(s.rim_tint)
}

/// Band value after the contrast stretch `(s - 0.5) * contrast + 0.5`.
pub open spec fn stretch_spec(wave: int, contrast: int) -> int {
    fmul_spec(wave01_spec(wave) - 5000, contrast) + 5000
}

/// Weight of the great spot for a normal whose X component is `nx`.
pub open spec fn spot_spec(nx: int, power: nat, amount: int) -> int {
    fmul_spec(pow_spec(saturate_spec(nx), power), amount)
}

/// One channel of a banded gas giant before clamping.
pub open spec fn banded_channel_spec(
    a: int,
    b: int,
    s2: int,
    spot: int,
    tint: int,
    light: int,
    rim_k: int,
    rim_tint: int,
) -> int {
    let bands = a + fmul_spec(b - a, s2);
    let spotted = fmul_spec(bands, ONE - spot) + fmul_spec(tint, spot);
    fmul_spec(spotted, light) + fmul_spec(rim_tint, rim_k)
}

/// Lit colour of a banded gas giant between palette ends `a` and `b`, clamped to
/// `[0, 1]`; `dl` and `dv` are the normal's dot products with light and view.
pub open spec fn banded_spec(a: Vec3, b: Vec3, st: BandStyle, nx: int, dl: int, dv: int, wave: int) -> (int, int, int) {
    let s2 = stretch_spec(wave, st.contrast as int);
    let spot = spot_spec(nx, st.spot_power as nat, st.spot_amount as int);
    let light = planet_light_spec(dl);
    let rim_k = fmul_spec(rim_spec(dv, 2), st.rim_amount as int);
    (
        saturate_spec(banded_channel_spec(a.x as int, b.x as int, s2, spot, st.spot_tint.x as int, light, rim_k, st.rim_tint.x as int)),
        saturate_spec(banded_channel_spec(a.y as int, b.y as int, s2, spot, st.spot_tint.y as int, light, rim_k, st.rim_tint.y as int)),
        saturate_spec(banded_channel_spec(a.z as int, b.z as int, s2, spot, st.spot_tint.z as int, light, rim_k, st.rim_tint.z as int)),
    )
}

/// Band phase: latitude times a full turn times the band frequency, plus turbulence
/// times `swirl`.
pub open spec fn band_phase_spec(lat: int, freq: int, turb: int, swirl: int) -> int {
    fmul_spec(fmul_spec(lat, TAU as int), freq) + fmul_spec(turb, swirl)
}

fn banded_channel(a: i64, b: i64, s2: i64, spot: i64, tint: i64, light: i64, rim_k: i64, rim_tint: i64) -> (r: i64)
    requires
        unit(a as int),
        unit(b as int),
        -2 * ONE <= s2 <= 3 * ONE,
        unit(spot as int),
        unit(tint as int),
        unit(light as int),
        unit(rim_k as int),
        unit(rim_tint as int),
    ensures
        r == banded_channel_spec(a as int, b as int, s2 as int, spot as int, tint as int, light as int, rim_k as int, rim_tint as int),
{
    proof {
        lemma_fmul_bound(b - a, s2 as int, 10000, 30000);
    }
    let bands = a + fmul(b - a, s2);
    proof {
        lemma_fmul_bound(bands as int, ONE - spot, 40000, 10000);
        lemma_fmul_unit(tint as int, spot as int);
    }
    let spotted = fmul(bands, ONE - spot) + fmul(tint, spot);
    proof {
        lemma_fmul_bound(spotted as int, light as int, 50000, 10000);
        lemma_fmul_unit(rim_tint as int, rim_k as int);
    }
    fmul(spotted, light) + fmul(rim_tint, rim_k)
}

/// Lit colour of a banded gas giant with palette ends `a` and `b`, for normal `n`,
/// light direction `l`, view direction `v` and the sine `wave` of the band phase.
pub fn banded_layers(a: Vec3, b: Vec3, st: &BandStyle, n: Vec3, l: Vec3, v: Vec3, wave: i64) -> (r: Vec3)
    requires
        vunit(a),
        vunit(b),
        style_wf(*st),
        vbounded(n),
        vbounded(l),
        vbounded(v),
        -ONE <= wave <= ONE,
    ensures
        (r.x as int, r.y as int, r.z as int)
            == banded_spec(a, b, *st, n.x as int, dot_spec(n, l), dot_spec(n, v), wave as int),
        vunit(r),
{
    let s = wave01(wave);
    proof {
        lemma_fmul_bound(s - 5000, st.contrast as int, 5000, 20000);
    }
    let s2 = fmul(s - 5000, st.contrast) + 5000;
    let dot_spot = saturate(n.x);
    let spot = fmul(pow_unit(dot_spot, st.spot_power), st.spot_amount);
    proof {
        lemma_fmul_unit(pow_spec(dot_spot as int, st.spot_power as nat), st.spot_amount as int);
    }
    let light = planet_light(n, l);
    let rim_base = rim(n, v, 2);
    proof {
        lemma_fmul_unit(rim_base as int, st.rim_amount as int);
    }
    let rim_k = fmul(rim_base, st.rim_amount);
    let x = banded_channel(a.x, b.x, s2, spot, st.spot_tint.x, light, rim_k, st.rim_tint.x);
    let y = banded_channel(a.y, b.y, s2, spot, st.spot_tint.y, light, rim_k, st.rim_tint.y);
    let z = banded_channel(a.z, b.z, s2, spot, st.spot_tint.z, light, rim_k, st.rim_tint.z);
    clamp01(Vec3 { x, y, z })
}

/// Phase of the latitude bands for normal `n` and turbulence `turb`.
fn band_phase(n: Vec3, freq: i64, turb: i64, swirl: i64) -> (r: i64)
    requires
        -LIMIT / 2 <= n.y <= LIMIT / 2,
        bounded(freq as int),
        bounded(turb as int),
        0 <= swirl <= 5 * ONE,
    ensures
        r == band_phase_spec(latitude_spec(n.y as int), freq as int, turb as int, swirl as int),
{
    let lat = latitude(n);
    proof {
        lemma_fmul_bound(lat as int, TAU as int, 10000, 62832);
    }
    let turn = fmul(lat, TAU);
    proof {
        lemma_fmul_bound(turn as int, freq as int, 62832, LIMIT as int);
        lemma_fmul_bound(turb as int, swirl as int, LIMIT as int, 50000);
    }
    fmul(turn, freq) + fmul(turb, swirl)
}

/// Warm gas giant: beige to brown bands with an orange great spot.
#[derive(Clone, Copy, Debug, PartialEq, Eq, Structural)]
pub struct Gas {
    pub main_a: Vec3,
    pub main_b: Vec3,
    pub band_freq: i64,
}

/// Blue gas giant: electric to deep blue bands with a blue spot.
#[derive(Clone, Copy, Debug, PartialEq, Eq, Structural)]
pub struct PlanetaGaseoso {
    pub main_a: Vec3,
    pub main_b: Vec3,
    pub band_freq: i64,
}

/// The warm giant's contrast, spot and rim.
pub open spec fn warm_style() -> BandStyle {
    BandStyle {
        contrast: 11500,
        spot_power: 50,
        spot_amount: 6000,
        spot_tint: Vec3 { x: 7800, y: 3800, z: 1800 },
        rim_amount: 3000,
        rim_tint: Vec3 { x: 3000, y: 3500, z: 4000 },
    }
}

/// The blue giant's contrast, spot and rim.
pub open spec fn blue_style() -> BandStyle {
    BandStyle {
        contrast: 12000,
        spot_power: 40,
        spot_amount: 4500,
        spot_tint: Vec3 { x: 1500, y: 5500, z: 10000 },
        rim_amount: 3500,
        rim_tint: Vec3 { x: 2500, y: 5500, z: 10000 },
    }
}

impl Gas {
    /// Beige (0.85, 0.70, 0.55) to brown (0.65, 0.50, 0.40), six bands per turn.
    pub fn default() -> (r: Gas)
        ensures
            r == (Gas {
                main_a: Vec3 { x: 8500, y: 7000, z: 5500 },
                main_b: Vec3 { x: 6500, y: 5000, z: 4000 },
                band_freq: 60000,
            }),
    {
        Gas {
            main_a: Vec3 { x: 8500, y: 7000, z: 5500 },
            main_b: Vec3 { x: 6500, y: 5000, z: 4000 },
            band_freq: 60000,
        }
    }

    pub fn name(&self) -> (r: &'static str)
        ensures
            r@ == "GasGiant"@,
    {
        "GasGiant"
    }

    /// A palette inside the unit cube and a frequency small enough for the arithmetic.
    pub open spec fn wf(&self) -> bool {
        vunit(self.main_a) && vunit(self.main_b) && bounded(self.band_freq as int)
    }

    /// Latitude in `[0, 1]` of a normal, south to north.
    pub fn lat_from_normal(n_ws: Vec3) -> (r: i64)
        requires
            -LIMIT / 2 <= n_ws.y <= LIMIT / 2,
        ensures
            r == latitude_spec(n_ws.y as int),
    {
        latitude(n_ws)
    }

    /// Phase whose sine drives the bands: latitude turns times the band frequency,
    /// swirled by 3.5 times the turbulence `turb`.
    pub fn band_phase(&self, n_ws: Vec3, turb: i64) -> (r: i64)
        requires
            self.wf(),
            -LIMIT / 2 <= n_ws.y <= LIMIT / 2,
            bounded(turb as int),
        ensures
            r == band_phase_spec(latitude_spec(n_ws.y as int), self.band_freq as int, turb as int, 35000),
    {
        band_phase(n_ws, self.band_freq, turb, 35000)
    }

    fn style() -> (r: BandStyle)
        ensures
            r == warm_style(),
    {
        BandStyle {
            contrast: 11500,
            spot_power: 50,
            spot_amount: 6000,
            spot_tint: Vec3 { x: 7800, y: 3800, z: 1800 },
            rim_amount: 3000,
            rim_tint: Vec3 { x: 3000, y: 3500, z: 4000 },
        }
    }

    /// Lit colour for normal `n`, light `l`, view direction `v` and band sine `wave`.
    pub fn color_layers(&self, n: Vec3, l: Vec3, v: Vec3, wave: i64) -> (r: Vec3)
        requires
            self.wf(),
            vbounded(n),
            vbounded(l),
            vbounded(v),
            -ONE <= wave <= ONE,
        ensures
            (r.x as int, r.y as int, r.z as int) == banded_spec(
                self.main_a, self.main_b, warm_style(), n.x as int, dot_spec(n, l), dot_spec(n, v), wave as int),
            vunit(r),
    {
        let st = Self::style();
        banded_layers(self.main_a, self.main_b, &st, n, l, v, wave)
    }

    /// Pixel of the warm gas giant.
    pub fn fragment(&self, n: Vec3, l: Vec3, v: Vec3, wave: i64) -> (c: Color)
        requires
            self.wf(),
            vbounded(n),
            vbounded(l),
            vbounded(v),
            -ONE <= wave <= ONE,
        ensures
            c == color_spec(Vec3 {
                x: banded_spec(self.main_a, self.main_b, warm_style(), n.x as int, dot_spec(n, l), dot_spec(n, v), wave as int).0 as i64,
                y: banded_spec(self.main_a, self.main_b, warm_style(), n.x as int, dot_spec(n, l), dot_spec(n, v), wave as int).1 as i64,
                z: banded_spec(self.main_a, self.main_b, warm_style(), n.x as int, dot_spec(n, l), dot_spec(n, v), wave as int).2 as i64,
            }),
    {
        to_color(self.color_layers(n, l, v, wave))
    }

    /// Angle of the giant's spin: time times the scene's rotation speed times 0.7.
    pub fn spin_angle(time: i64, rotation_speed: i64) -> (r: i64)
        requires
            bounded(time as int),
            bounded(rotation_speed as int),
            bounded(fmul_spec(time as int, rotation_speed as int)),
        ensures
            r == spin_angle_spec(time as int, rotation_speed as int, 7000),
    {
        spin_angle(time, rotation_speed, 7000)
    }

    /// Vertex stage: the spin (cosine `c`, sine `s` of the spin angle) applied after
    /// the model matrix, then view and projection.
    pub fn vertex(&self, pos: Vec3, nrm: Vec3, uv: Vec2, model: Mat4, view: Mat4, proj: Mat4, c: i64, s: i64) -> (o: VertexOut)
        requires
            m4bounded(model),
            -ONE <= c <= ONE,
            -ONE <= s <= ONE,
            projectable(mat_mul_spec(rotation_y_spec(c, s), model), view, proj, pos, nrm),
        ensures
            o == project_spec(mat_mul_spec(rotation_y_spec(c, s), model), view, proj, pos, nrm, uv),
    {
        let composed = mat_mul(rotation_y(c, s), model);
        project(composed, view, proj, pos, nrm, uv)
    }
}

impl PlanetaGaseoso {
    /// Electric blue (0.10, 0.40, 1.00) to deep blue (0.00, 0.10, 0.60), seven bands
    /// per turn.
    pub fn default() -> (r: PlanetaGaseoso)
        ensures
            r == (PlanetaGaseoso {
                main_a: Vec3 { x: 1000, y: 4000, z: 10000 },
                main_b: Vec3 { x: 0, y: 1000, z: 6000 },
                band_freq: 70000,
            }),
    {
        PlanetaGaseoso {
            main_a: Vec3 { x: 1000, y: 4000, z: 10000 },
            main_b: Vec3 { x: 0, y: 1000, z: 6000 },
            band_freq: 70000,
        }
    }

    pub fn name(&self) -> (r: &'static str)
        ensures
            r@ == "PlanetaGaseoso_AzulVibrante"@,
    {
        "PlanetaGaseoso_AzulVibrante"
    }

    /// A palette inside the unit cube and a frequency small enough for the arithmetic.
    pub open spec fn wf(&self) -> bool {
        vunit(self.main_a) && vunit(self.main_b) && bounded(self.band_freq as int)
    }

    /// Latitude in `[0, 1]` of a normal, south to north.
    pub fn lat_from_normal(n_ws: Vec3) -> (r: i64)
        requires
            -LIMIT / 2 <= n_ws.y <= LIMIT / 2,
        ensures
            r == latitude_spec(n_ws.y as int),
    {
        latitude(n_ws)
    }

    /// Phase whose sine drives the bands: latitude turns times the band frequency,
    /// swirled by 4 times the turbulence `turb`.
    pub fn band_phase(&self, n_ws: Vec3, turb: i64) -> (r: i64)
        requires
            self.wf(),
            -LIMIT / 2 <= n_ws.y <= LIMIT / 2,
            bounded(turb as int),
        ensures
            r == band_phase_spec(latitude_spec(n_ws.y as int), self.band_freq as int, turb as int, 40000),
    {
        band_phase(n_ws, self.band_freq, turb, 40000)
    }

    fn style() -> (r: BandStyle)
        ensures
            r == blue_style(),
    {
        BandStyle {
            contrast: 12000,
            spot_power: 40,
            spot_amount: 4500,
            spot_tint: Vec3 { x: 1500, y: 5500, z: 10000 },
            rim_amount: 3500,
            rim_tint: Vec3 { x: 2500, y: 5500, z: 10000 },
        }
    }

    /// Lit colour for normal `n`, light `l`, view direction `v` and band sine `wave`.
    pub fn color_layers(&self, n: Vec3, l: Vec3, v: Vec3, wave: i64) -> (r: Vec3)
        requires
            self.wf(),
            vbounded(n),
            vbounded(l),
            vbounded(v),
            -ONE <= wave <= ONE,
        ensures
            (r.x as int, r.y as int, r.z as int) == banded_spec(
                self.main_a, self.main_b, blue_style(), n.x as int, dot_spec(n, l), dot_spec(n, v), wave as int),
            vunit(r),
    {
        let st = Self::style();
        banded_layers(self.main_a, self.main_b, &st, n, l, v, wave)
    }

    /// Pixel of the blue gas giant.
    pub fn fragment(&self, n: Vec3, l: Vec3, v: Vec3, wave: i64) -> (c: Color)
        requires
            self.wf(),
            vbounded(n),
            vbounded(l),
            vbounded(v),
            -ONE <= wave <= ONE,
        ensures
            c == color_spec(Vec3 {
                x: banded_spec(self.main_a, self.main_b, blue_style(), n.x as int, dot_spec(n, l), dot_spec(n, v), wave as int).0 as i64,
                y: banded_spec(self.main_a, self.main_b, blue_style(), n.x as int, dot_spec(n, l), dot_spec(n, v), wave as int).1 as i64,
                z: banded_spec(self.main_a, self.main_b, blue_style(), n.x as int, dot_spec(n, l), dot_spec(n, v), wave as int).2 as i64,
            }),
    {
        to_color(self.color_layers(n, l, v, wave))
    }

    /// Angle of the giant's spin: time times the scene's rotation speed times 0.7.
    pub fn spin_angle(time: i64, rotation_speed: i64) -> (r: i64)
        requires
            bounded(time as int),
            bounded(rotation_speed as int),
            bounded(fmul_spec(time as int, rotation_speed as int)),
        ensures
            r == spin_angle_spec(time as int, rotation_speed as int, 7000),
    {
        spin_angle(time, rotation_speed, 7000)
    }

    /// Vertex stage: the spin (cosine `c`, sine `s` of the spin angle) applied after
    /// the model matrix, then view and projection.
    pub fn vertex(&self, pos: Vec3, nrm: Vec3, uv: Vec2, model: Mat4, view: Mat4, proj: Mat4, c: i64, s: i64) -> (o: VertexOut)
        requires
            m4bounded(model),
            -ONE <= c <= ONE,
            -ONE <= s <= ONE,
            projectable(mat_mul_spec(rotation_y_spec(c, s), model), view, proj, pos, nrm),
        ensures
            o == project_spec(mat_mul_spec(rotation_y_spec(c, s), model), view, proj, pos, nrm, uv),
    {
        let composed = mat_mul(rotation_y(c, s), model);
        project(composed, view, proj, pos, nrm, uv)
    }
}

} // verus!
