use vstd::prelude::*;
use crate::transform::{
    homogeneous, m4bounded, mat_vec, mat_vec_spec, v4bounded, xyz, Mat4, Vec2, Vec4, VertexOut,
};
use crate::fixed::{
    bounded, fmul, fmul_spec, lemma_fmul_bound, lemma_fmul_unit, lerp, lerp_spec, saturate,
    saturate_spec, unit, LIMIT, ONE,
};
use crate::shading::{
    clamp01, color_spec, dot_spec, normalize, normalize_spec, noise_ok, planet_light, planet_light_spec, rim, rim_spec,
    to_color, vbounded, vunit, Color, Vec3,
};

verus! {

/// Height of the moon's orbit above its planet's centre (0.45).
pub const ORBIT_LIFT: i64 = 4500;

/// A small moon circling its planet.
#[derive(Clone, Copy, Debug, PartialEq, Eq, Structural)]
pub struct Moon {
    /// Orbit radius.
    pub radius: i64,
    /// Size of the moon relative to its mesh.
    pub scale: i64,
}

/// World position of mesh point `p`: the planet's centre, plus the scaled point, plus
/// the orbital offset at the angle with cosine `c` and sine `s`.
pub open spec fn moon_place_spec(m: Moon, center: Vec3, p: Vec3, c: int, s: int) -> Vec3 {
    Vec3 {
        x: (center.x + fmul_spec(p.x as int, m.scale as int) + fmul_spec(m.radius as int, c)) as i64,
        y: (center.y + fmul_spec(p.y as int, m.scale as int) + ORBIT_LIFT) as i64,
        z: (center.z + fmul_spec(p.z as int, m.scale as int) + fmul_spec(m.radius as int, s)) as i64,
    }
}

/// The planet's centre: the model matrix applied to the origin.
pub open spec fn model_center_spec(model: Mat4) -> Vec3 {
    xyz(mat_vec_spec(model, Vec4 { x: 0, y: 0, z: 0, w: ONE }))
}

/// One channel of the moon before the final clamp: the pale-blue mix by the noise,
/// clamped, tinted, lit, plus the rim light.
pub open spec fn moon_channel_spec(lo: int, hi: int, tint: int, f: int, light: int, rim_k: int, rim_tint: int) -> int {
    fmul_spec(saturate_spec(lerp_spec(lo, hi, f)) + tint, light) + fmul_spec(rim_tint, rim_k)
}

/// The moon's colour for noise `f` and normal-light and normal-view dot products.
pub open spec fn moon_spec(f: int, dl: int, dv: int) -> Vec3 {
    let light = planet_light_spec(dl);
    let rim_k = fmul_spec(rim_spec(dv, 2), 2800);
    Vec3 {
        x: saturate_spec(moon_channel_spec(6000, 8200, 0, f, light, rim_k, 7800)) as i64,
        y: saturate_spec(moon_channel_spec(7800, 9300, 56, f, light, rim_k, 9200)) as i64,
        z: saturate_spec(moon_channel_spec(9000, 10000, 64, f, light, rim_k, 10000)) as i64,
    }
}

fn moon_channel(lo: i64, hi: i64, tint: i64, f: i64, light: i64, rim_k: i64, rim_tint: i64) -> (r: i64)
    requires
        unit(lo as int),
        unit(hi as int),
        0 <= tint <= 100,
        noise_ok(f as int),
        unit(light as int),
        unit(rim_k as int),
        unit(rim_tint as int),
    ensures
        r == moon_channel_spec(lo as int, hi as int, tint as int, f as int, light as int, rim_k as int, rim_tint as int),
{
    let albedo = saturate(lerp(lo, hi, f)) + tint;
    proof {
        lemma_fmul_bound(albedo as int, light as int, 10100, 10000);
        lemma_fmul_unit(rim_tint as int, rim_k as int);
    }
    fmul(albedo, light) + fmul(rim_tint, rim_k)
}

impl Moon {
    /// Orbit radius 2.4, scale 0.35.
    pub fn default() -> (r: Moon)
        ensures
            r == (Moon { radius: 24000, scale: 3500 }),
    {
        Moon { radius: 24000, scale: 3500 }
    }

    pub fn name(&self) -> (r: &'static str)
        ensures
            r@ == "MoonShader"@,
    {
        "MoonShader"
    }

    /// Radius and scale small enough for the arithmetic.
    pub open spec fn wf(&self) -> bool {
        bounded(self.radius as int) && bounded(self.scale as int)
    }

    /// Offset from the planet's centre at the orbital angle whose cosine and sine are
    /// `cos_a` and `sin_a`: the orbit circle in the horizontal plane, lifted by 0.45.
    pub fn offset(&self, cos_a: i64, sin_a: i64) -> (r: Vec3)
        requires
            self.wf(),
            -ONE <= cos_a <= ONE,
            -ONE <= sin_a <= ONE,
        ensures
            r.x == fmul_spec(self.radius as int, cos_a as int),
            r.y == ORBIT_LIFT,
            r.z == fmul_spec(self.radius as int, sin_a as int),
    {
        Vec3 { x: fmul(self.radius, cos_a), y: ORBIT_LIFT, z: fmul(self.radius, sin_a) }
    }

    /// World position of mesh point `p`: the planet's centre, plus the scaled point,
    /// plus the orbital offset.
    pub fn place(&self, center: Vec3, p: Vec3, cos_a: i64, sin_a: i64) -> (r: Vec3)
        requires
            self.wf(),
            vbounded(center),
            vbounded(p),
            -ONE <= cos_a <= ONE,
            -ONE <= sin_a <= ONE,
        ensures
            r == moon_place_spec(*self, center, p, cos_a as int, sin_a as int),
    {
        let off = self.offset(cos_a, sin_a);
        proof {
            lemma_fmul_bound(p.x as int, self.scale as int, LIMIT as int, LIMIT as int);
            lemma_fmul_bound(p.y as int, self.scale as int, LIMIT as int, LIMIT as int);
            lemma_fmul_bound(p.z as int, self.scale as int, LIMIT as int, LIMIT as int);
            lemma_fmul_bound(self.radius as int, cos_a as int, LIMIT as int, ONE as int);
            lemma_fmul_bound(self.radius as int, sin_a as int, LIMIT as int, ONE as int);
        }
        Vec3 {
            x: center.x + fmul(p.x, self.scale) + off.x,
            y: center.y + fmul(p.y, self.scale) + off.y,
            z: center.z + fmul(p.z, self.scale) + off.z,
        }
    }

    /// Lit colour for noise sample `f`, normal `n`, light `l` and view direction `v`.
    pub fn color_layers(&self, f: i64, n: Vec3, l: Vec3, v: Vec3) -> (r: Vec3)
        requires
            noise_ok(f as int),
            vbounded(n),
            vbounded(l),
            vbounded(v),
        ensures
            r == moon_spec(f as int, dot_spec(n, l), dot_spec(n, v)),
            vunit(r),
    {
        let light = planet_light(n, l);
        let rim_base = rim(n, v, 2);
        proof {
            lemma_fmul_unit(rim_base as int, 2800);
        }
        let rim_k = fmul(rim_base, 2800);
        let x = moon_channel(6000, 8200, 0, f, light, rim_k, 7800);
        let y = moon_channel(7800, 9300, 56, f, light, rim_k, 9200);
        let z = moon_channel(9000, 10000, 64, f, light, rim_k, 10000);
        clamp01(Vec3 { x, y, z })
    }

    /// Pixel of the moon.
    pub fn fragment(&self, f: i64, n: Vec3, l: Vec3, v: Vec3) -> (c: Color)
        requires
            noise_ok(f as int),
            vbounded(n),
            vbounded(l),
            vbounded(v),
        ensures
            c == color_spec(moon_spec(f as int, dot_spec(n, l), dot_spec(n, v))),
    {
        to_color(self.color_layers(f, n, l, v))
    }

    /// Orbital angle at `time`: 0.4 radians per unit of time.
    pub fn orbit_angle(time: i64) -> (r: i64)
        requires
            bounded(time as int),
        ensures
            r == fmul_spec(time as int, 4000),
    {
        fmul(time, 4000)
    }

    /// Vertex stage: the moon is scaled and placed on its orbit around the planet's
    /// centre taken from the model matrix (`c`, `s`: cosine and sine of the orbital
    /// angle), then viewed and projected. The mesh normal is normalised.
    pub fn vertex(&self, pos: Vec3, nrm: Vec3, uv: Vec2, model: Mat4, view: Mat4, proj: Mat4, c: i64, s: i64) -> (o: VertexOut)
        requires
            self.wf(),
            vbounded(pos),
            vbounded(nrm),
            m4bounded(model),
            m4bounded(view),
            m4bounded(proj),
            -ONE <= c <= ONE,
            -ONE <= s <= ONE,
            vbounded(moon_place_spec(*self, model_center_spec(model), pos, c as int, s as int)),
            v4bounded(mat_vec_spec(view, homogeneous(moon_place_spec(*self, model_center_spec(model), pos, c as int, s as int), ONE))),
        ensures
            o == (VertexOut {
                clip_pos: mat_vec_spec(
                    proj,
                    mat_vec_spec(view, homogeneous(moon_place_spec(*self, model_center_spec(model), pos, c as int, s as int), ONE)),
                ),
                pos_ws: moon_place_spec(*self, model_center_spec(model), pos, c as int, s as int),
                nrm_ws: normalize_spec(nrm),
                uv,
            }),
    {
        let origin = mat_vec(model, Vec4 { x: 0, y: 0, z: 0, w: ONE });
        let center = Vec3 { x: origin.x, y: origin.y, z: origin.z };
        proof {
            vstd::arithmetic::div_mod::lemma_div_multiples_vanish(model.r0.w as int, ONE as int);
            vstd::arithmetic::div_mod::lemma_div_multiples_vanish(model.r1.w as int, ONE as int);
            vstd::arithmetic::div_mod::lemma_div_multiples_vanish(model.r2.w as int, ONE as int);
            assert(model.r0.w * ONE == ONE * model.r0.w);
            assert(model.r1.w * ONE == ONE * model.r1.w);
            assert(model.r2.w * ONE == ONE * model.r2.w);
        }
        assert(center.x == model.r0.w && center.y == model.r1.w && center.z == model.r2.w);
        let p = self.place(center, pos, c, s);
        let eye = mat_vec(view, Vec4 { x: p.x, y: p.y, z: p.z, w: ONE });
        let clip = mat_vec(proj, eye);
        VertexOut { clip_pos: clip, pos_ws: p, nrm_ws: normalize(nrm), uv }
    }
}

} // verus!
