use vstd::prelude::*;
use crate::transform::{
    m4bounded, mat_mul, mat_mul_spec, project, project_spec, projectable, rotation_y,
    rotation_y_spec, spin_angle, spin_angle_spec, Mat4, Vec2, VertexOut,
};
use crate::fixed::{
    bounded, fmul, fmul_spec, lemma_fmul_bound, lemma_fmul_unit, lerp, lerp_spec, saturate,
    saturate_spec, smoothstep, smoothstep_spec, unit, ONE,
};
use crate::shading::{
    clamp01, color_spec, diffuse, diffuse_spec, dot_spec, noise_ok, to_color, vbounded, vunit,
    Color, Vec3,
};


verus! {

/// Ice planet: a near-black crust frosted green, banded by height and cracked.
#[derive(Clone, Copy, Debug, PartialEq, Eq, Structural)]
pub struct Ice {
    pub frost: Vec3,
    /// Speed of the planet's own rotation.
    pub rot_speed: i64,
}

/// Clamp of `x` to `[-1, 1]`.
pub open spec fn clamp_signed_spec(x: int) -> int {
    if x < -ONE {
        -ONE
    } else if x > ONE {
        ONE as int
    } else {
        x
    }
}

pub open spec fn abs_spec(x: int) -> int {
    if x < 0 {
        -x
    } else {
        x
    }
}

/// Strength in `[0, 0.5]` of the height bands at world height `y`.
pub open spec fn band_strength_spec(y: int) -> int {
    let lat = clamp_signed_spec(y);
    fmul_spec(smoothstep_spec(0, 3500, abs_spec(fmul_spec(lat, 8000))), 5000)
}

/// Crack mask from the noise sample `crack`: `(crack - 0.5) * 3` clamped to `[0, 1]`.
pub open spec fn ice_cracks_spec(crack: int) -> int {
    saturate_spec(fmul_spec(crack - 5000, 30000))
}

/// One channel of the ice planet before the final clamp.
pub open spec fn ice_channel_spec(
    base: int,
    frost: int,
    crack: int,
    bs: int,
    d: int,
    rim_k: int,
    rim_tint: int,
    crack_tint: int,
) -> int {
    let cracks = ice_cracks_spec(crack);
    let frost_layer = lerp_spec(base, frost, fmul_spec(crack, 9000));
    let tinted = fmul_spec(frost_layer, ONE - fmul_spec(4000, bs));
    let layered = lerp_spec(frost_layer, tinted, bs);
    let lit = fmul_spec(layered, 4000 + fmul_spec(6000, d)) + fmul_spec(fmul_spec(rim_tint, rim_k), 5000);
    fmul_spec(lit, ONE - cracks) + fmul_spec(crack_tint, cracks)
}

/// The ice planet's colour for world height `y`, noise sample `crack`, normal-light
/// dot product `dl` and rim term `rim_term`.
pub open spec fn ice_spec(frost: Vec3, y: int, crack: int, dl: int, rim_term: int) -> Vec3 {
    let bs = band_strength_spec(y);
    let d = diffuse_spec(dl);
    let rim_k = fmul_spec(rim_term, 6000);
    Vec3 {
        x: saturate_spec(ice_channel_spec(400, frost.x as int, crack, bs, d, rim_k, 7000, 900)) as i64,
        y: saturate_spec(ice_channel_spec(1000, frost.y as int, crack, bs, d, rim_k, 9500, 700)) as i64,
        z: saturate_spec(ice_channel_spec(600, frost.z as int, crack, bs, d, rim_k, 8000, 500)) as i64,
    }
}

/// Strength of the height bands at world height `y`.
fn band_strength(y: i64) -> (r: i64)
    ensures
        r == band_strength_spec(y as int),
        0 <= r <= 5000,
{
    let lat = if y < -ONE {
        -ONE
    } else if y > ONE {
        ONE
    } else {
        y
    };
    proof {
        lemma_fmul_bound(lat as int, 8000, 10000, 8000);
    }
    let scaled = fmul(lat, 8000);
    let mag = if scaled < 0 {
        -scaled
    } else {
        scaled
    };
    let bands = smoothstep(0, 3500, mag);
    proof {
        lemma_fmul_unit(bands as int, 5000);
    }
    fmul(bands, 5000)
}

fn ice_channel(base: i64, frost: i64, crack: i64, bs: i64, d: i64, rim_k: i64, rim_tint: i64, crack_tint: i64) -> (r: i64)
    requires
        unit(base as int),
        unit(frost as int),
        noise_ok(crack as int),
        0 <= bs <= 5000,
        unit(d as int),
        unit(rim_k as int),
        unit(rim_tint as int),
        unit(crack_tint as int),
    ensures
        r == ice_channel_spec(base as int, frost as int, crack as int, bs as int, d as int, rim_k as int, rim_tint as int, crack_tint as int),
{
    proof {
        lemma_fmul_bound(crack - 5000, 30000, 105000, 30000);
        lemma_fmul_bound(crack as int, 9000, 100000, 9000);
    }
    let cracks = saturate(fmul(crack - 5000, 30000));
    let t = fmul(crack, 9000);
    proof {
        lemma_fmul_bound(frost - base, t as int, 10000, 90000);
        lemma_fmul_unit(4000, bs as int);
    }
    let frost_layer = lerp(base, frost, t);
    proof {
        lemma_fmul_bound(frost_layer as int, ONE - fmul_spec(4000, bs as int), 100000, 10000);
    }
    let tinted = fmul(frost_layer, ONE - fmul(4000, bs));
    proof {
        lemma_fmul_bound(tinted - frost_layer, bs as int, 200000, 10000);
    }
    let layered = lerp(frost_layer, tinted, bs);
    proof {
        lemma_fmul_unit(6000, d as int);
        lemma_fmul_bound(layered as int, 4000 + fmul_spec(6000, d as int), 300000, 10000);
        lemma_fmul_unit(rim_tint as int, rim_k as int);
        lemma_fmul_unit(fmul_spec(rim_tint as int, rim_k as int), 5000);
    }
    let lit = fmul(layered, 4000 + fmul(6000, d)) + fmul(fmul(rim_tint, rim_k), 5000);
    proof {
        lemma_fmul_bound(lit as int, ONE - cracks, 310000, 10000);
        lemma_fmul_unit(crack_tint as int, cracks as int);
    }
    fmul(lit, ONE - cracks) + fmul(crack_tint, cracks)
}

impl Ice {
    /// Mint green frost (0.30, 0.85, 0.35), own rotation speed 0.35.
    pub fn default() -> (r: Ice)
        ensures
            r == (Ice { frost: Vec3 { x: 3000, y: 8500, z: 3500 }, rot_speed: 3500 }),
    {
        Ice { frost: Vec3 { x: 3000, y: 8500, z: 3500 }, rot_speed: 3500 }
    }

    pub fn name(&self) -> (r: &'static str)
        ensures
            r@ == "IcePlanet_Green"@,
    {
        "IcePlanet_Green"
    }

    /// A frost colour inside the unit cube.
    pub open spec fn wf(&self) -> bool {
        vunit(self.frost)
    }

    /// Lit colour at world height `y` for the noise sample `crack`, normal `n`, light
    /// `l`, and the rim term `rim_term` (the rim with the scene's rim power times 1.2).
    /// Unlike the other planets the diffuse term has no ambient floor.
    pub fn color_layers(&self, y: i64, crack: i64, n: Vec3, l: Vec3, rim_term: i64) -> (r: Vec3)
        requires
            self.wf(),
            noise_ok(crack as int),
            vbounded(n),
            vbounded(l),
            unit(rim_term as int),
        ensures
            r == ice_spec(self.frost, y as int, crack as int, dot_spec(n, l), rim_term as int),
            vunit(r),
    {
        let bs = band_strength(y);
        let d = diffuse(n, l);
        proof {
            lemma_fmul_unit(rim_term as int, 6000);
        }
        let rim_k = fmul(rim_term, 6000);
        let x = ice_channel(400, self.frost.x, crack, bs, d, rim_k, 7000, 900);
        let yy = ice_channel(1000, self.frost.y, crack, bs, d, rim_k, 9500, 700);
        let z = ice_channel(600, self.frost.z, crack, bs, d, rim_k, 8000, 500);
        clamp01(Vec3 { x, y: yy, z })
    }

    /// Pixel of the ice planet.
    pub fn fragment(&self, y: i64, crack: i64, n: Vec3, l: Vec3, rim_term: i64) -> (c: Color)
        requires
            self.wf(),
            noise_ok(crack as int),
            vbounded(n),
            vbounded(l),
            unit(rim_term as int),
        ensures
            c == color_spec(ice_spec(self.frost, y as int, crack as int, dot_spec(n, l), rim_term as int)),
    {
        to_color(self.color_layers(y, crack, n, l, rim_term))
    }

    /// Angle of the orbital rotation: time times the scene's rotation speed times 0.6.
    pub fn orbit_angle(time: i64, rotation_speed: i64) -> (r: i64)
        requires
            bounded(time as int),
            bounded(rotation_speed as int),
            bounded(fmul_spec(time as int, rotation_speed as int)),
        ensures
            r == spin_angle_spec(time as int, rotation_speed as int, 6000),
    {
        spin_angle(time, rotation_speed, 6000)
    }

    /// Angle of the planet's own spin: time times its rotation speed.
    pub fn spin_angle(&self, time: i64) -> (r: i64)
        requires
            bounded(time as int),
            bounded(self.rot_speed as int),
            bounded(fmul_spec(time as int, self.rot_speed as int)),
        ensures
            r == spin_angle_spec(time as int, self.rot_speed as int, ONE as int),
    {
        spin_angle(time, self.rot_speed, ONE)
    }

    /// Vertex stage: the orbital rotation (`oc`, `os`) after the model matrix and the
    /// planet's own spin (`sc`, `ss`) before it, then view and projection.
    pub fn vertex(
        &self,
        pos: Vec3,
        nrm: Vec3,
        uv: Vec2,
        model: Mat4,
        view: Mat4,
        proj: Mat4,
        oc: i64,
        os: i64,
        sc: i64,
        ss: i64,
    ) -> (o: VertexOut)
        requires
            m4bounded(model),
            -ONE <= oc <= ONE,
            -ONE <= os <= ONE,
            -ONE <= sc <= ONE,
            -ONE <= ss <= ONE,
            m4bounded(mat_mul_spec(rotation_y_spec(oc, os), model)),
            projectable(
                mat_mul_spec(mat_mul_spec(rotation_y_spec(oc, os), model), rotation_y_spec(sc, ss)),
                view,
                proj,
                pos,
                nrm,
            ),
        ensures
            o == project_spec(
                mat_mul_spec(mat_mul_spec(rotation_y_spec(oc, os), model), rotation_y_spec(sc, ss)),
                view,
                proj,
                pos,
                nrm,
                uv,
            ),
    {
        let orbited = mat_mul(rotation_y(oc, os), model);
        let composed = mat_mul(orbited, rotation_y(sc, ss));
        project(composed, view, proj, pos, nrm, uv)
    }
}

} // verus!
