use vstd::prelude::*;
use crate::transform::{
    m4bounded, mat_mul, mat_mul_spec, project, project_spec, projectable, rotation_y,
    rotation_y_spec, spin_angle, spin_angle_spec, Mat4, Vec2, VertexOut,
};
use crate::fixed::{
    bounded, fmul, fmul_spec, lemma_fmul_bound, lemma_fmul_unit, lerp, lerp_spec, saturate,
    saturate_spec, smoothstep, smoothstep_spec, unit, ONE,
};
use crate::shading::{
    clamp01, color_spec, dot_spec, noise_ok, planet_light, planet_light_spec, to_color, vbounded,
    vunit, Color, Vec3,
};


verus! {

/// Red lava planet: dark plates veined with glowing cracks.
#[derive(Clone, Copy, Debug, PartialEq, Eq, Structural)]
pub struct PlanetaRojo {
    pub base_dark: Vec3,
    pub lava_tint: Vec3,
    /// Speed of the planet's own rotation.
    pub rot_speed: i64,
}

/// Crack mask: the fine noise `f2` thresholded smoothly between 0.75 and 0.95.
pub open spec fn lava_cracks_spec(f2: int) -> int {
    smoothstep_spec(7500, 9500, f2)
}

/// One channel of the lava planet before the final clamp.
pub open spec fn lava_channel_spec(
    dark: int,
    light_base: int,
    lava: int,
    f1: int,
    cracks: int,
    light: int,
    rim_k: int,
    rim_tint: int,
) -> int {
    let base = lerp_spec(dark, light_base, fmul_spec(f1, 7000));
    let hot = fmul_spec(fmul_spec(lava, cracks), 9000);
    let albedo = saturate_spec(fmul_spec(base, ONE - cracks) + hot);
    fmul_spec(albedo, light) + fmul_spec(rim_tint, rim_k)
}

/// The lava planet's colour for the coarse and fine noise samples `f1`, `f2`, the
/// normal-light dot product `dl` and the rim term `rim_term`.
pub open spec fn lava_spec(p: PlanetaRojo, f1: int, f2: int, dl: int, rim_term: int) -> Vec3 {
    let cracks = lava_cracks_spec(f2);
    let light = planet_light_spec(dl);
    let rim_k = fmul_spec(rim_term, 2500);
    Vec3 {
        x: saturate_spec(lava_channel_spec(p.base_dark.x as int, 4500, p.lava_tint.x as int, f1, cracks, light, rim_k, 9500)) as i64,
        y: saturate_spec(lava_channel_spec(p.base_dark.y as int, 1200, p.lava_tint.y as int, f1, cracks, light, rim_k, 4500)) as i64,
        z: saturate_spec(lava_channel_spec(p.base_dark.z as int, 800, p.lava_tint.z as int, f1, cracks, light, rim_k, 3000)) as i64,
    }
}

fn lava_channel(dark: i64, light_base: i64, lava: i64, f1: i64, cracks: i64, light: i64, rim_k: i64, rim_tint: i64) -> (r: i64)
    requires
        unit(dark as int),
        unit(light_base as int),
        unit(lava as int),
        noise_ok(f1 as int),
        unit(cracks as int),
        unit(light as int),
        unit(rim_k as int),
        unit(rim_tint as int),
    ensures
        r == lava_channel_spec(dark as int, light_base as int, lava as int, f1 as int, cracks as int, light as int, rim_k as int, rim_tint as int),
{
    proof {
        lemma_fmul_bound(f1 as int, 7000, 100_000, 7000);
    }
    let t = fmul(f1, 7000);
    proof {
        lemma_fmul_bound(light_base - dark, t as int, 10000, 70000);
    }
    let base = lerp(dark, light_base, t);
    proof {
        lemma_fmul_bound(base as int, ONE - cracks, 80000, 10000);
        lemma_fmul_unit(lava as int, cracks as int);
        lemma_fmul_unit(fmul_spec(lava as int, cracks as int), 9000);
    }
    let hot = fmul(fmul(lava, cracks), 9000);
    let albedo = saturate(fmul(base, ONE - cracks) + hot);
    proof {
        lemma_fmul_unit(albedo as int, light as int);
        lemma_fmul_unit(rim_tint as int, rim_k as int);
    }
    fmul(albedo, light) + fmul(rim_tint, rim_k)
}

impl PlanetaRojo {
    /// Earthy dark red (0.18, 0.05, 0.04), glowing red-orange (0.85, 0.25, 0.10), own
    /// rotation speed 0.45.
    pub fn default() -> (r: PlanetaRojo)
        ensures
            r == (PlanetaRojo {
                base_dark: Vec3 { x: 1800, y: 500, z: 400 },
                lava_tint: Vec3 { x: 8500, y: 2500, z: 1000 },
                rot_speed: 4500,
            }),
    {
        PlanetaRojo {
            base_dark: Vec3 { x: 1800, y: 500, z: 400 },
            lava_tint: Vec3 { x: 8500, y: 2500, z: 1000 },
            rot_speed: 4500,
        }
    }

    pub fn name(&self) -> (r: &'static str)
        ensures
            r@ == "PlanetaRojo"@,
    {
        "PlanetaRojo"
    }

    /// Colours inside the unit cube.
    pub open spec fn wf(&self) -> bool {
        vunit(self.base_dark) && vunit(self.lava_tint)
    }

    /// Lit colour for the coarse and fine noise samples `f1` and `f2`, normal `n`,
    /// light `l`, and the rim term `rim_term` (the rim with exponent 1.8).
    pub fn color_layers(&self, f1: i64, f2: i64, n: Vec3, l: Vec3, rim_term: i64) -> (r: Vec3)
        requires
            self.wf(),
            noise_ok(f1 as int),
            noise_ok(f2 as int),
            vbounded(n),
            vbounded(l),
            unit(rim_term as int),
        ensures
            r == lava_spec(*self, f1 as int, f2 as int, dot_spec(n, l), rim_term as int),
            vunit(r),
    {
        let cracks = smoothstep(7500, 9500, f2);
        let light = planet_light(n, l);
        proof {
            lemma_fmul_unit(rim_term as int, 2500);
        }
        let rim_k = fmul(rim_term, 2500);
        let x = lava_channel(self.base_dark.x, 4500, self.lava_tint.x, f1, cracks, light, rim_k, 9500);
        let y = lava_channel(self.base_dark.y, 1200, self.lava_tint.y, f1, cracks, light, rim_k, 4500);
        let z = lava_channel(self.base_dark.z, 800, self.lava_tint.z, f1, cracks, light, rim_k, 3000);
        clamp01(Vec3 { x, y, z })
    }

    /// Pixel of the lava planet.
    pub fn fragment(&self, f1: i64, f2: i64, n: Vec3, l: Vec3, rim_term: i64) -> (c: Color)
        requires
            self.wf(),
            noise_ok(f1 as int),
            noise_ok(f2 as int),
            vbounded(n),
            vbounded(l),
            unit(rim_term as int),
        ensures
            c == color_spec(lava_spec(*self, f1 as int, f2 as int, dot_spec(n, l), rim_term as int)),
    {
        to_color(self.color_layers(f1, f2, n, l, rim_term))
    }

    /// Angle of the planet's own spin: time times its rotation speed.
    pub fn spin_angle(&self, time: i64) -> (r: i64)
        requires
            bounded(time as int),
            bounded(self.rot_speed as int),
            bounded(fmul_spec(time as int, self.rot_speed as int)),
        ensures
            r == spin_angle_spec(time as int, self.rot_speed as int, ONE as int),
    {
        spin_angle(time, self.rot_speed, ONE)
    }

    /// Vertex stage: the planet's own spin (cosine `c`, sine `s`) applied after the
    /// model matrix, then view and projection.
    pub fn vertex(&self, pos: Vec3, nrm: Vec3, uv: Vec2, model: Mat4, view: Mat4, proj: Mat4, c: i64, s: i64) -> (o: VertexOut)
        requires
            m4bounded(model),
            -ONE <= c <= ONE,
            -ONE <= s <= ONE,
            projectable(mat_mul_spec(rotation_y_spec(c, s), model), view, proj, pos, nrm),
        ensures
            o == project_spec(mat_mul_spec(rotation_y_spec(c, s), model), view, proj, pos, nrm, uv),
    {
        let composed = mat_mul(rotation_y(c, s), model);
        project(composed, view, proj, pos, nrm, uv)
    }
}

} // verus!
