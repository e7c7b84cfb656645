use vstd::prelude::*;
use crate::fixed::{
    bounded, channel_spec, div_floor, fmul, fmul_spec, lemma_fmul_bound, lerp, lerp_spec, pow_spec, pow_unit, saturate, saturate_spec,
    to_channel, unit, LIMIT, ONE,
};

verus! {

/// A 3-vector of fixed-point components.
#[derive(Clone, Copy, Debug, PartialEq, Eq, Structural)]
pub struct Vec3 {
    pub x: i64,
    pub y: i64,
    pub z: i64,
}

/// An 8-bit RGBA pixel; alpha 0 means the pixel is not composited.
#[derive(Clone, Copy, Debug, PartialEq, Eq, Structural)]
pub struct Color {
    pub r: u8,
    pub g: u8,
    pub b: u8,
    pub a: u8,
}

/// Bound on the components of vectors that take part in products.
pub open spec fn vbounded(v: Vec3) -> bool {
    bounded(v.x as int) && bounded(v.y as int) && bounded(v.z as int)
}

/// Bound on the components of colours that are interpolated or summed.
pub open spec fn half_bounded(x: int) -> bool {
    -LIMIT / 2 <= x <= LIMIT / 2
}

pub open spec fn vhalf(v: Vec3) -> bool {
    half_bounded(v.x as int) && half_bounded(v.y as int) && half_bounded(v.z as int)
}

/// Every component lies in `[0, 1]`.
pub open spec fn vunit(v: Vec3) -> bool {
    unit(v.x as int) && unit(v.y as int) && unit(v.z as int)
}

/// Largest magnitude of a fractal-noise sample the shaders accept (10.0).
pub const NOISE_MAX: i64 = 100_000;

/// A fractal-noise sample within the accepted range.
pub open spec fn noise_ok(f: int) -> bool {
    -NOISE_MAX <= f <= NOISE_MAX
}

/// Lighting factor of most planets: diffuse scaled by 0.85 over an ambient floor of 0.15.
pub open spec fn planet_light_spec(d: int) -> int {
    fmul_spec(diffuse_spec(d), 8500) + 1500
}

/// A sine value in `[-1, 1]` remapped to `[0, 1]`.
pub open spec fn wave01_spec(w: int) -> int {
    fmul_spec(w, 5000) + 5000
}

/// Fixed-point dot product.
pub open spec fn dot_spec(a: Vec3, b: Vec3) -> int {
    (a.x * b.x + a.y * b.y + a.z * b.z) / (ONE as int)
}

/// The diffuse term for a given normal-light dot product: clamped to `[0, 1]`.
pub open spec fn diffuse_spec(d: int) -> int {
    saturate_spec(d)
}

/// The rim term `(1 - clamp(d, 0, 1))^power` for a normal-view dot product `d`.
pub open spec fn rim_spec(d: int, power: nat) -> int {
    pow_spec(ONE - saturate_spec(d), power)
}

/// Latitude in `[0, 1]` from the vertical component of a normal: -1 maps to 0, 1 to 1.
pub open spec fn latitude_spec(ny: int) -> int {
    saturate_spec((ny + ONE) / 2)
}

/// The colour whose channels quantise the clamped components of `v`, fully opaque.
pub open spec fn color_spec(v: Vec3) -> Color {
    Color {
        r: channel_spec(v.x as int) as u8,
        g: channel_spec(v.y as int) as u8,
        b: channel_spec(v.z as int) as u8,
        a: 255,
    }
}

impl Vec3 {
    pub fn new(x: i64, y: i64, z: i64) -> (r: Vec3)
        ensures
            r == (Vec3 { x, y, z }),
    {
        Vec3 { x, y, z }
    }
}

impl Color {
    pub fn rgba(r: u8, g: u8, b: u8, a: u8) -> (c: Color)
        ensures
            c == (Color { r, g, b, a }),
    {
        Color { r, g, b, a }
    }

    /// The fully transparent black pixel.
    pub open spec fn transparent() -> Color {
        Color { r: 0, g: 0, b: 0, a: 0 }
    }
}

/// Remaps a sine value `w` to `w * 0.5 + 0.5`.
pub fn wave01(w: i64) -> (r: i64)
    requires
        -ONE <= w <= ONE,
    ensures
        r == wave01_spec(w as int),
        unit(r as int),
{
    proof {
        lemma_fmul_bound(w as int, 5000, 10000, 5000);
    }
    fmul(w, 5000) + 5000
}

/// The lighting factor `diffuse * 0.85 + 0.15` for normal `n` and light direction `l`.
pub fn planet_light(n: Vec3, l: Vec3) -> (r: i64)
    requires
        vbounded(n),
        vbounded(l),
    ensures
        r == planet_light_spec(dot_spec(n, l)),
        unit(r as int),
{
    let d = diffuse(n, l);
    proof {
        lemma_fmul_bound(d as int, 8500, 10000, 8500);
    }
    fmul(d, 8500) + 1500
}

/// Component-wise linear interpolation between two vectors.
pub fn lerp3(a: Vec3, b: Vec3, t: i64) -> (r: Vec3)
    requires
        vhalf(a),
        vhalf(b),
        bounded(t as int),
    ensures
        r.x == lerp_spec(a.x as int, b.x as int, t as int),
        r.y == lerp_spec(a.y as int, b.y as int, t as int),
        r.z == lerp_spec(a.z as int, b.z as int, t as int),
{
    Vec3 { x: lerp(a.x, b.x, t), y: lerp(a.y, b.y, t), z: lerp(a.z, b.z, t) }
}

/// Component-wise clamp to `[0, 1]`.
pub fn clamp01(v: Vec3) -> (r: Vec3)
    ensures
        r.x == saturate_spec(v.x as int),
        r.y == saturate_spec(v.y as int),
        r.z == saturate_spec(v.z as int),
        vunit(r),
{
    Vec3 { x: saturate(v.x), y: saturate(v.y), z: saturate(v.z) }
}

/// Fixed-point dot product of two bounded vectors.
pub fn dot(a: Vec3, b: Vec3) -> (r: i64)
    requires
        vbounded(a),
        vbounded(b),
    ensures
        r == dot_spec(a, b),
{
    assert(-1_000_000_000_000_000_000int <= a.x * b.x <= 1_000_000_000_000_000_000int)
        by (nonlinear_arith)
        requires
            bounded(a.x as int),
            bounded(b.x as int),
    ;
    assert(-1_000_000_000_000_000_000int <= a.y * b.y <= 1_000_000_000_000_000_000int)
        by (nonlinear_arith)
        requires
            bounded(a.y as int),
            bounded(b.y as int),
    ;
    assert(-1_000_000_000_000_000_000int <= a.z * b.z <= 1_000_000_000_000_000_000int)
        by (nonlinear_arith)
        requires
            bounded(a.z as int),
            bounded(b.z as int),
    ;
    let s: i64 = a.x * b.x + a.y * b.y + a.z * b.z;
    div_floor(s, ONE)
}

/// Diffuse (Lambert) term: the normal-light dot product clamped to `[0, 1]`.
pub fn diffuse(n: Vec3, l: Vec3) -> (r: i64)
    requires
        vbounded(n),
        vbounded(l),
    ensures
        r == diffuse_spec(dot_spec(n, l)),
        unit(r as int),
{
    saturate(dot(n, l))
}

/// Rim term `(1 - clamp(dot(n, v), 0, 1))^power`, brightest where the surface turns away.
pub fn rim(n: Vec3, v: Vec3, power: u32) -> (r: i64)
    requires
        vbounded(n),
        vbounded(v),
    ensures
        r == rim_spec(dot_spec(n, v), power as nat),
        unit(r as int),
{
    let d = saturate(dot(n, v));
    pow_unit(ONE - d, power)
}

/// Latitude band index in `[0, 1]` of a normal.
pub fn latitude(n: Vec3) -> (r: i64)
    requires
        half_bounded(n.y as int),
    ensures
        r == latitude_spec(n.y as int),
        unit(r as int),
{
    saturate(div_floor(n.y + ONE, 2))
}

/// Quantises a colour to 8 bits per channel, clamping each component to `[0, 1]`;
/// alpha is opaque.
pub fn to_color(v: Vec3) -> (c: Color)
    ensures
        c == color_spec(v),
{
    Color { r: to_channel(v.x), g: to_channel(v.y), b: to_channel(v.z), a: 255 }
}

/// `r` is the integer square root of `n`.
pub open spec fn is_isqrt(r: int, n: int) -> bool {
    0 <= r && r * r <= n < (r + 1) * (r + 1)
}

/// The integer square root of `n`: the largest `r` with `r * r <= n`.
pub open spec fn isqrt_spec(n: int) -> int {
    choose|r: int| is_isqrt(r, n)
}

/// Squared length of a vector, in squared fixed-point units.
pub open spec fn len2_spec(v: Vec3) -> int {
    v.x * v.x + v.y * v.y + v.z * v.z
}

/// `v` scaled to unit length, each component rounded down; the zero vector has no
/// direction and is returned as it is.
pub open spec fn normalize_spec(v: Vec3) -> Vec3 {
    let len = isqrt_spec(len2_spec(v));
    if len == 0 {
        v
    } else {
        Vec3 {
            x: ((v.x * ONE) / len) as i64,
            y: ((v.y * ONE) / len) as i64,
            z: ((v.z * ONE) / len) as i64,
        }
    }
}

/// At most one integer square root exists.
proof fn lemma_isqrt_unique(a: int, b: int, n: int)
    requires
        is_isqrt(a, n),
        is_isqrt(b, n),
    ensures
        a == b,
{
    if a < b {
        assert((a + 1) * (a + 1) <= b * b) by (nonlinear_arith)
            requires
                0 <= a,
                a + 1 <= b,
        ;
    } else if b < a {
        assert((b + 1) * (b + 1) <= a * a) by (nonlinear_arith)
            requires
                0 <= b,
                b + 1 <= a,
        ;
    }
}

/// Integer square root, by bisection.
pub fn isqrt(n: i64) -> (r: i64)
    requires
        0 <= n <= 3_000_000_000_000_000_000,
    ensures
        is_isqrt(r as int, n as int),
        r == isqrt_spec(n as int),
{
    let mut lo: i64 = 0;
    let mut hi: i64 = 2_000_000_000;
    while lo + 1 < hi
        invariant
            0 <= lo < hi <= 2_000_000_000,
            lo * lo <= n,
            n < hi * hi,
        decreases hi - lo,
    {
        let mid: i64 = lo + (hi - lo) / 2;
        assert(mid * mid <= 4_000_000_000_000_000_000) by (nonlinear_arith)
            requires
                0 <= mid <= 2_000_000_000,
        ;
        if mid * mid <= n {
            lo = mid;
        } else {
            hi = mid;
        }
    }
    proof {
        assert(is_isqrt(lo as int, n as int));
        let c = isqrt_spec(n as int);
        lemma_isqrt_unique(c, lo as int, n as int);
    }
    lo
}

/// The vector scaled to unit length; the zero vector is returned unchanged.
pub fn normalize(v: Vec3) -> (r: Vec3)
    requires
        vbounded(v),
    ensures
        r == normalize_spec(v),
{
    assert(0 <= v.x * v.x <= 1_000_000_000_000_000_000) by (nonlinear_arith)
        requires
            bounded(v.x as int),
    ;
    assert(0 <= v.y * v.y <= 1_000_000_000_000_000_000) by (nonlinear_arith)
        requires
            bounded(v.y as int),
    ;
    assert(0 <= v.z * v.z <= 1_000_000_000_000_000_000) by (nonlinear_arith)
        requires
            bounded(v.z as int),
    ;
    let len = isqrt(v.x * v.x + v.y * v.y + v.z * v.z);
    if len == 0 {
        v
    } else {
        proof {
            assert(v.x * v.x <= len2_spec(v));
            assert(v.x * v.x < (len + 1) * (len + 1));
            assert(v.y * v.y < (len + 1) * (len + 1));
            assert(v.z * v.z < (len + 1) * (len + 1));
            lemma_component_le_len(v.x as int, len as int);
            lemma_component_le_len(v.y as int, len as int);
            lemma_component_le_len(v.z as int, len as int);
        }
        Vec3 { x: div_floor(v.x * ONE, len), y: div_floor(v.y * ONE, len), z: div_floor(v.z * ONE, len) }
    }
}

/// A component whose square is below `(len + 1)^2` is at most `len` in magnitude, so
/// its scaled quotient by `len` fits comfortably.
proof fn lemma_component_le_len(x: int, len: int)
    requires
        len > 0,
        x * x < (len + 1) * (len + 1),
    ensures
        -len <= x <= len,
        -len * ONE <= x * ONE <= len * ONE,
{
    if x > len {
        assert((len + 1) * (len + 1) <= x * x) by (nonlinear_arith)
            requires
                len + 1 <= x,
                len > 0,
        ;
    }
    if x < -len {
        assert((len + 1) * (len + 1) <= x * x) by (nonlinear_arith)
            requires
                x <= -(len + 1),
                len > 0,
        ;
    }
    assert(-len * ONE <= x * ONE <= len * ONE) by (nonlinear_arith)
        requires
            -len <= x <= len,
    ;
}

/// A larger normal-light alignment never gives a smaller diffuse term.
pub proof fn lemma_diffuse_monotonic(d1: int, d2: int)
    requires
        d1 <= d2,
    ensures
        diffuse_spec(d1) <= diffuse_spec(d2),
{
}

/// A larger normal-light alignment never gives a smaller lighting factor
/// `diffuse * 0.85 + 0.15`.
pub proof fn lemma_planet_light_monotonic(d1: int, d2: int)
    requires
        d1 <= d2,
    ensures
        planet_light_spec(d1) <= planet_light_spec(d2),
{
    let a = diffuse_spec(d1);
    let b = diffuse_spec(d2);
    assert(a * 8500 <= b * 8500) by (nonlinear_arith)
        requires
            a <= b,
    ;
    vstd::arithmetic::div_mod::lemma_div_is_ordered(a * 8500, b * 8500, ONE as int);
}

/// Every channel of a quantised colour is an 8-bit value in `[0, 255]`.
pub proof fn lemma_channel_in_range(c: int)
    ensures
        0 <= channel_spec(c) <= 255,
{
    assert(0 <= saturate_spec(c) * 255 / (ONE as int) <= 255) by (nonlinear_arith)
        requires
            0 <= saturate_spec(c) <= 10000,
    ;
}

} // verus!
