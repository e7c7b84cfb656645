use vstd::prelude::*;
use crate::fixed::{bounded, div_floor, fmul, fmul_spec, ONE};
use crate::shading::{normalize, normalize_spec, vbounded, Vec3};

verus! {

/// A 4-vector of fixed-point components (homogeneous coordinates).
#[derive(Clone, Copy, Debug, PartialEq, Eq, Structural)]
pub struct Vec4 {
    pub x: i64,
    pub y: i64,
    pub z: i64,
    pub w: i64,
}

/// A 4x4 fixed-point matrix, stored by rows.
#[derive(Clone, Copy, Debug, PartialEq, Eq, Structural)]
pub struct Mat4 {
    pub r0: Vec4,
    pub r1: Vec4,
    pub r2: Vec4,
    pub r3: Vec4,
}

/// A texture coordinate.
#[derive(Clone, Copy, Debug, PartialEq, Eq, Structural)]
pub struct Vec2 {
    pub x: i64,
    pub y: i64,
}

/// Result of a vertex stage. The world normal has unit length, up to rounding, except
/// where the transformed normal is zero.
#[derive(Clone, Copy, Debug, PartialEq, Eq, Structural)]
pub struct VertexOut {
    pub clip_pos: Vec4,
    pub pos_ws: Vec3,
    pub nrm_ws: Vec3,
    pub uv: Vec2,
}

pub open spec fn v4bounded(v: Vec4) -> bool {
    bounded(v.x as int) && bounded(v.y as int) && bounded(v.z as int) && bounded(v.w as int)
}

pub open spec fn m4bounded(m: Mat4) -> bool {
    v4bounded(m.r0) && v4bounded(m.r1) && v4bounded(m.r2) && v4bounded(m.r3)
}

pub open spec fn dot4_spec(a: Vec4, b: Vec4) -> int {
    (a.x * b.x + a.y * b.y + a.z * b.z + a.w * b.w) / (ONE as int)
}

/// Column `j` of a matrix.
pub open spec fn col_spec(m: Mat4, j: int) -> Vec4 {
    if j == 0 {
        Vec4 { x: m.r0.x, y: m.r1.x, z: m.r2.x, w: m.r3.x }
    } else if j == 1 {
        Vec4 { x: m.r0.y, y: m.r1.y, z: m.r2.y, w: m.r3.y }
    } else if j == 2 {
        Vec4 { x: m.r0.z, y: m.r1.z, z: m.r2.z, w: m.r3.z }
    } else {
        Vec4 { x: m.r0.w, y: m.r1.w, z: m.r2.w, w: m.r3.w }
    }
}

/// Matrix times vector.
pub open spec fn mat_vec_spec(m: Mat4, v: Vec4) -> Vec4 {
    Vec4 {
        x: dot4_spec(m.r0, v) as i64,
        y: dot4_spec(m.r1, v) as i64,
        z: dot4_spec(m.r2, v) as i64,
        w: dot4_spec(m.r3, v) as i64,
    }
}

/// Row vector times matrix.
pub open spec fn row_mat_spec(r: Vec4, m: Mat4) -> Vec4 {
    Vec4 {
        x: dot4_spec(r, col_spec(m, 0)) as i64,
        y: dot4_spec(r, col_spec(m, 1)) as i64,
        z: dot4_spec(r, col_spec(m, 2)) as i64,
        w: dot4_spec(r, col_spec(m, 3)) as i64,
    }
}

/// Matrix product `a * b`.
pub open spec fn mat_mul_spec(a: Mat4, b: Mat4) -> Mat4 {
    Mat4 {
        r0: row_mat_spec(a.r0, b),
        r1: row_mat_spec(a.r1, b),
        r2: row_mat_spec(a.r2, b),
        r3: row_mat_spec(a.r3, b),
    }
}

/// Rotation about the Y axis by the angle whose cosine and sine are `c` and `s`.
pub open spec fn rotation_y_spec(c: i64, s: i64) -> Mat4 {
    Mat4 {
        r0: Vec4 { x: c, y: 0, z: s, w: 0 },
        r1: Vec4 { x: 0, y: ONE, z: 0, w: 0 },
        r2: Vec4 { x: (-s) as i64, y: 0, z: c, w: 0 },
        r3: Vec4 { x: 0, y: 0, z: 0, w: ONE },
    }
}

/// Rotation about the X axis by the angle whose cosine and sine are `c` and `s`.
pub open spec fn rotation_x_spec(c: i64, s: i64) -> Mat4 {
    Mat4 {
        r0: Vec4 { x: ONE, y: 0, z: 0, w: 0 },
        r1: Vec4 { x: 0, y: c, z: (-s) as i64, w: 0 },
        r2: Vec4 { x: 0, y: s, z: c, w: 0 },
        r3: Vec4 { x: 0, y: 0, z: 0, w: ONE },
    }
}

/// A point (w = 1) or a direction (w = 0) in homogeneous form.
pub open spec fn homogeneous(v: Vec3, w: i64) -> Vec4 {
    Vec4 { x: v.x, y: v.y, z: v.z, w }
}

pub open spec fn xyz(v: Vec4) -> Vec3 {
    Vec3 { x: v.x, y: v.y, z: v.z }
}

/// Every intermediate of projecting `p` and `n` through `model`, `view`, `proj` stays
/// within the fixed-point operand bound.
pub open spec fn projectable(model: Mat4, view: Mat4, proj: Mat4, p: Vec3, n: Vec3) -> bool {
    let world = mat_vec_spec(model, homogeneous(p, ONE));
    &&& m4bounded(model) && m4bounded(view) && m4bounded(proj)
    &&& vbounded(p) && vbounded(n)
    &&& v4bounded(world)
    &&& v4bounded(mat_vec_spec(view, world))
    &&& vbounded(xyz(mat_vec_spec(model, homogeneous(n, 0))))
}

/// The vertex stage's result for a composed model matrix: clip position through view
/// and projection, world position and the normalised world normal through the same
/// model matrix.
pub open spec fn project_spec(model: Mat4, view: Mat4, proj: Mat4, p: Vec3, n: Vec3, uv: Vec2) -> VertexOut {
    let world = mat_vec_spec(model, homogeneous(p, ONE));
    VertexOut {
        clip_pos: mat_vec_spec(proj, mat_vec_spec(view, world)),
        pos_ws: xyz(world),
        nrm_ws: normalize_spec(xyz(mat_vec_spec(model, homogeneous(n, 0)))),
        uv,
    }
}

/// Fixed-point dot product of two bounded 4-vectors.
pub fn dot4(a: Vec4, b: Vec4) -> (r: i64)
    requires
        v4bounded(a),
        v4bounded(b),
    ensures
        r == dot4_spec(a, b),
{
    assert(-1_000_000_000_000_000_000int <= a.x * b.x <= 1_000_000_000_000_000_000int) by (nonlinear_arith)
        requires
            bounded(a.x as int),
            bounded(b.x as int),
    ;
    assert(-1_000_000_000_000_000_000int <= a.y * b.y <= 1_000_000_000_000_000_000int) by (nonlinear_arith)
        requires
            bounded(a.y as int),
            bounded(b.y as int),
    ;
    assert(-1_000_000_000_000_000_000int <= a.z * b.z <= 1_000_000_000_000_000_000int) by (nonlinear_arith)
        requires
            bounded(a.z as int),
            bounded(b.z as int),
    ;
    assert(-1_000_000_000_000_000_000int <= a.w * b.w <= 1_000_000_000_000_000_000int) by (nonlinear_arith)
        requires
            bounded(a.w as int),
            bounded(b.w as int),
    ;
    let s: i64 = a.x * b.x + a.y * b.y + a.z * b.z + a.w * b.w;
    div_floor(s, ONE)
}

/// The quotient of a sum of four bounded products by `ONE` fits in `i64`.
proof fn lemma_dot4_fits(a: Vec4, b: Vec4)
    requires
        v4bounded(a),
        v4bounded(b),
    ensures
        -400_000_000_000_000 <= dot4_spec(a, b) <= 400_000_000_000_000,
{
    assert(-4_000_000_000_000_000_000int <= a.x * b.x + a.y * b.y + a.z * b.z + a.w * b.w
        <= 4_000_000_000_000_000_000int) by (nonlinear_arith)
        requires
            v4bounded(a),
            v4bounded(b),
    ;
    vstd::arithmetic::div_mod::lemma_div_is_ordered(
        -4_000_000_000_000_000_000int,
        a.x * b.x + a.y * b.y + a.z * b.z + a.w * b.w,
        ONE as int,
    );
    vstd::arithmetic::div_mod::lemma_div_is_ordered(
        a.x * b.x + a.y * b.y + a.z * b.z + a.w * b.w,
        4_000_000_000_000_000_000int,
        ONE as int,
    );
}

/// Entries in `[-1, 1]`, as in a rotation.
pub open spec fn small4(v: Vec4) -> bool {
    -ONE <= v.x <= ONE && -ONE <= v.y <= ONE && -ONE <= v.z <= ONE && -ONE <= v.w <= ONE
}

pub open spec fn small_mat(m: Mat4) -> bool {
    small4(m.r0) && small4(m.r1) && small4(m.r2) && small4(m.r3)
}

proof fn lemma_dot4_small(a: Vec4, b: Vec4)
    requires
        small4(a),
        small4(b),
    ensures
        -4 * ONE <= dot4_spec(a, b) <= 4 * ONE,
{
    assert(-400_000_000int <= a.x * b.x + a.y * b.y + a.z * b.z + a.w * b.w <= 400_000_000int)
        by (nonlinear_arith)
        requires
            small4(a),
            small4(b),
    ;
    vstd::arithmetic::div_mod::lemma_div_is_ordered(
        -400_000_000int,
        a.x * b.x + a.y * b.y + a.z * b.z + a.w * b.w,
        ONE as int,
    );
    vstd::arithmetic::div_mod::lemma_div_is_ordered(
        a.x * b.x + a.y * b.y + a.z * b.z + a.w * b.w,
        400_000_000int,
        ONE as int,
    );
}

proof fn lemma_row_small(r: Vec4, m: Mat4)
    requires
        small4(r),
        small_mat(m),
    ensures
        v4bounded(row_mat_spec(r, m)),
{
    lemma_dot4_small(r, col_spec(m, 0));
    lemma_dot4_small(r, col_spec(m, 1));
    lemma_dot4_small(r, col_spec(m, 2));
    lemma_dot4_small(r, col_spec(m, 3));
}

/// The product of two matrices with entries in `[-1, 1]`, such as two rotations,
/// stays within the operand bound.
pub proof fn lemma_small_product_bounded(a: Mat4, b: Mat4)
    requires
        small_mat(a),
        small_mat(b),
    ensures
        m4bounded(mat_mul_spec(a, b)),
{
    lemma_row_small(a.r0, b);
    lemma_row_small(a.r1, b);
    lemma_row_small(a.r2, b);
    lemma_row_small(a.r3, b);
}

/// Matrix times vector.
pub fn mat_vec(m: Mat4, v: Vec4) -> (r: Vec4)
    requires
        m4bounded(m),
        v4bounded(v),
    ensures
        r == mat_vec_spec(m, v),
{
    proof {
        lemma_dot4_fits(m.r0, v);
        lemma_dot4_fits(m.r1, v);
        lemma_dot4_fits(m.r2, v);
        lemma_dot4_fits(m.r3, v);
    }
    Vec4 { x: dot4(m.r0, v), y: dot4(m.r1, v), z: dot4(m.r2, v), w: dot4(m.r3, v) }
}

fn col(m: Mat4, j: usize) -> (c: Vec4)
    requires
        j < 4,
    ensures
        c == col_spec(m, j as int),
{
    if j == 0 {
        Vec4 { x: m.r0.x, y: m.r1.x, z: m.r2.x, w: m.r3.x }
    } else if j == 1 {
        Vec4 { x: m.r0.y, y: m.r1.y, z: m.r2.y, w: m.r3.y }
    } else if j == 2 {
        Vec4 { x: m.r0.z, y: m.r1.z, z: m.r2.z, w: m.r3.z }
    } else {
        Vec4 { x: m.r0.w, y: m.r1.w, z: m.r2.w, w: m.r3.w }
    }
}

fn row_mat(r: Vec4, m: Mat4) -> (o: Vec4)
    requires
        v4bounded(r),
        m4bounded(m),
    ensures
        o == row_mat_spec(r, m),
{
    let c0 = col(m, 0);
    let c1 = col(m, 1);
    let c2 = col(m, 2);
    let c3 = col(m, 3);
    proof {
        lemma_dot4_fits(r, c0);
        lemma_dot4_fits(r, c1);
        lemma_dot4_fits(r, c2);
        lemma_dot4_fits(r, c3);
    }
    Vec4 { x: dot4(r, c0), y: dot4(r, c1), z: dot4(r, c2), w: dot4(r, c3) }
}

/// Matrix product `a * b`.
pub fn mat_mul(a: Mat4, b: Mat4) -> (r: Mat4)
    requires
        m4bounded(a),
        m4bounded(b),
    ensures
        r == mat_mul_spec(a, b),
{
    Mat4 { r0: row_mat(a.r0, b), r1: row_mat(a.r1, b), r2: row_mat(a.r2, b), r3: row_mat(a.r3, b) }
}

/// Rotation about the Y axis from the cosine `c` and sine `s` of its angle.
pub fn rotation_y(c: i64, s: i64) -> (m: Mat4)
    requires
        -ONE <= c <= ONE,
        -ONE <= s <= ONE,
    ensures
        m == rotation_y_spec(c, s),
        m4bounded(m),
{
    Mat4 {
        r0: Vec4 { x: c, y: 0, z: s, w: 0 },
        r1: Vec4 { x: 0, y: ONE, z: 0, w: 0 },
        r2: Vec4 { x: -s, y: 0, z: c, w: 0 },
        r3: Vec4 { x: 0, y: 0, z: 0, w: ONE },
    }
}

/// Rotation about the X axis from the cosine `c` and sine `s` of its angle.
pub fn rotation_x(c: i64, s: i64) -> (m: Mat4)
    requires
        -ONE <= c <= ONE,
        -ONE <= s <= ONE,
    ensures
        m == rotation_x_spec(c, s),
        m4bounded(m),
{
    Mat4 {
        r0: Vec4 { x: ONE, y: 0, z: 0, w: 0 },
        r1: Vec4 { x: 0, y: c, z: -s, w: 0 },
        r2: Vec4 { x: 0, y: s, z: c, w: 0 },
        r3: Vec4 { x: 0, y: 0, z: 0, w: ONE },
    }
}

/// Transforms a mesh point and normal through a composed model matrix, then view and
/// projection.
pub fn project(model: Mat4, view: Mat4, proj: Mat4, p: Vec3, n: Vec3, uv: Vec2) -> (o: VertexOut)
    requires
        projectable(model, view, proj, p, n),
    ensures
        o == project_spec(model, view, proj, p, n, uv),
{
    let world = mat_vec(model, Vec4 { x: p.x, y: p.y, z: p.z, w: ONE });
    let eye = mat_vec(view, world);
    let clip = mat_vec(proj, eye);
    let nrm = mat_vec(model, Vec4 { x: n.x, y: n.y, z: n.z, w: 0 });
    VertexOut {
        clip_pos: clip,
        pos_ws: Vec3 { x: world.x, y: world.y, z: world.z },
        nrm_ws: normalize(Vec3 { x: nrm.x, y: nrm.y, z: nrm.z }),
        uv,
    }
}

/// Angle `time * speed * factor` of a time-driven rotation.
pub open spec fn spin_angle_spec(time: int, speed: int, factor: int) -> int {
    fmul_spec(fmul_spec(time, speed), factor)
}

/// Angle of a rotation driven by `time` at `speed`, scaled by `factor`.
pub fn spin_angle(time: i64, speed: i64, factor: i64) -> (r: i64)
    requires
        bounded(time as int),
        bounded(speed as int),
        0 <= factor <= ONE,
        bounded(fmul_spec(time as int, speed as int)),
    ensures
        r == spin_angle_spec(time as int, speed as int, factor as int),
{
    let a = fmul(time, speed);
    fmul(a, factor)
}

} // verus!
