use vstd::prelude::*;
use vstd::arithmetic::div_mod::lemma_fundamental_div_mod_converse;

verus! {

/// Fixed-point scale: a real value `v` is held as the integer `v * ONE`.
pub const ONE: i64 = 10000;

/// Largest magnitude of an operand of the fixed-point arithmetic below.
pub const LIMIT: i64 = 1_000_000_000;

/// An operand small enough for products of two of them to fit in `i64`.
pub open spec fn bounded(x: int) -> bool {
    -LIMIT <= x <= LIMIT
}

/// A fixed-point value in the unit interval.
pub open spec fn unit(x: int) -> bool {
    0 <= x <= ONE
}

/// Clamp of a fixed-point value to the unit interval `[0, ONE]`.
pub open spec fn saturate_spec(x: int) -> int {
    if x < 0 {
        0
    } else if x > ONE {
        ONE as int
    } else {
        x
    }
}

/// Fixed-point product, rounded toward negative infinity.
pub open spec fn fmul_spec(a: int, b: int) -> int {
    (a * b) / (ONE as int)
}

/// `num / den` as a fixed-point value, clamped to `[0, 1]`.
pub open spec fn ratio_spec(num: int, den: int) -> int {
    saturate_spec((num * ONE) / den)
}

/// Linear interpolation `a + (b - a) * t`.
pub open spec fn lerp_spec(a: int, b: int, t: int) -> int {
    a + fmul_spec(b - a, t)
}

/// The Hermite step `t * t * (3 - 2 * t)` for `t` in `[0, 1]`.
pub open spec fn hermite_spec(t: int) -> int {
    (t * t * (3 * ONE - 2 * t)) / (ONE * ONE)
}

/// Smooth threshold of `x` between the edges `e0 < e1`.
pub open spec fn smoothstep_spec(e0: int, e1: int, x: int) -> int {
    hermite_spec(ratio_spec(x - e0, e1 - e0))
}

/// `x` raised to the natural power `k`, each product rounded down.
pub open spec fn pow_spec(x: int, k: nat) -> int
    decreases k,
{
    if k == 0 {
        ONE as int
    } else {
        fmul_spec(pow_spec(x, (k - 1) as nat), x)
    }
}

/// An 8-bit channel: the value clamped to `[0, 1]`, scaled by 255 and truncated.
pub open spec fn channel_spec(c: int) -> int {
    saturate_spec(c) * 255 / (ONE as int)
}

/// Clamps `x` to `[0, 1]`.
pub fn saturate(x: i64) -> (r: i64)
    ensures
        r == saturate_spec(x as int),
        unit(r as int),
{
    if x < 0 {
        0
    } else if x > ONE {
        ONE
    } else {
        x
    }
}

/// Floor division by a positive divisor.
pub fn div_floor(n: i64, d: i64) -> (q: i64)
    requires
        d > 0,
        n > i64::MIN,
    ensures
        q == n as int / d as int,
{
    if n >= 0 {
        n / d
    } else {
        let m: i64 = -n;
        let q0: i64 = m / d;
        let r0: i64 = m % d;
        proof {
            vstd::arithmetic::div_mod::lemma_fundamental_div_mod(m as int, d as int);
            assert(m == q0 * d + r0) by (nonlinear_arith)
                requires
                    m == d * q0 + r0,
            ;
        }
        if r0 == 0 {
            proof {
                assert(n == (-q0) * d + 0) by (nonlinear_arith)
                    requires
                        m == q0 * d + r0,
                        r0 == 0,
                        n == -m,
                ;
                lemma_fundamental_div_mod_converse(n as int, d as int, -q0, 0);
            }
            -q0
        } else {
            proof {
                assert(n == (-q0 - 1) * d + (d - r0)) by (nonlinear_arith)
                    requires
                        m == q0 * d + r0,
                        n == -m,
                ;
                lemma_fundamental_div_mod_converse(n as int, d as int, -q0 - 1, d - r0);
            }
            -q0 - 1
        }
    }
}

/// Fixed-point product of two bounded values.
pub fn fmul(a: i64, b: i64) -> (r: i64)
    requires
        bounded(a as int),
        bounded(b as int),
    ensures
        r == fmul_spec(a as int, b as int),
{
    assert(-1_000_000_000_000_000_000int <= a * b <= 1_000_000_000_000_000_000int) by (nonlinear_arith)
        requires
            bounded(a as int),
            bounded(b as int),
    ;
    div_floor(a * b, ONE)
}

/// `num / den` in fixed point, clamped to `[0, 1]`.
pub fn ratio(num: i64, den: i64) -> (r: i64)
    requires
        bounded(num as int),
        0 < den <= LIMIT,
    ensures
        r == ratio_spec(num as int, den as int),
        unit(r as int),
{
    let q = div_floor(num * ONE, den);
    saturate(q)
}

/// Linear interpolation from `a` (at `t = 0`) to `b` (at `t = 1`).
pub fn lerp(a: i64, b: i64, t: i64) -> (r: i64)
    requires
        -LIMIT / 2 <= a <= LIMIT / 2,
        -LIMIT / 2 <= b <= LIMIT / 2,
        bounded(t as int),
    ensures
        r == lerp_spec(a as int, b as int, t as int),
{
    let p = fmul(b - a, t);
    assert(-100_000_000_000_000int <= p <= 100_000_000_000_000int) by (nonlinear_arith)
        requires
            p == ((b - a) * t) / 10000,
            bounded(b - a),
            bounded(t as int),
    {
        assert(-1_000_000_000_000_000_000int <= (b - a) * t <= 1_000_000_000_000_000_000int)
            by (nonlinear_arith)
            requires
                bounded(b - a),
                bounded(t as int),
        ;
    }
    a + p
}

/// The Hermite step of a value already in `[0, 1]`.
pub fn hermite(t: i64) -> (r: i64)
    requires
        unit(t as int),
    ensures
        r == hermite_spec(t as int),
        unit(r as int),
{
    assert(0 <= t * t * (3 * ONE - 2 * t) <= ONE * ONE * ONE) by (nonlinear_arith)
        requires
            unit(t as int),
    {
        assert(0 <= t * t <= ONE * ONE) by (nonlinear_arith)
            requires
                unit(t as int),
        ;
        assert(t * t * (3 * ONE - 2 * t) <= ONE * ONE * ONE) by (nonlinear_arith)
            requires
                unit(t as int),
        ;
    }
    assert(0 <= t * t <= ONE * ONE) by (nonlinear_arith)
        requires
            unit(t as int),
    ;
    let tt: i64 = t * t;
    let n: i64 = tt * (3 * ONE - 2 * t);
    let r = n / (ONE * ONE);
    assert(r <= ONE) by (nonlinear_arith)
        requires
            0 <= n <= 1_000_000_000_000int,
            r == n as int / 100_000_000int,
    ;
    r
}

/// Smooth threshold of `x` rising from 0 at `e0` to 1 at `e1`.
pub fn smoothstep(e0: i64, e1: i64, x: i64) -> (r: i64)
    requires
        -LIMIT / 2 <= e0 < e1 <= LIMIT / 2,
        -LIMIT / 2 <= x <= LIMIT / 2,
    ensures
        r == smoothstep_spec(e0 as int, e1 as int, x as int),
        unit(r as int),
{
    let t = ratio(x - e0, e1 - e0);
    hermite(t)
}

/// `x` to the natural power `k`, for `x` in `[0, 1]`.
pub fn pow_unit(x: i64, k: u32) -> (r: i64)
    requires
        unit(x as int),
    ensures
        r == pow_spec(x as int, k as nat),
        unit(r as int),
{
    let mut acc: i64 = ONE;
    let mut i: u32 = 0;
    while i < k
        invariant
            i <= k,
            unit(x as int),
            acc == pow_spec(x as int, i as nat),
            unit(acc as int),
        decreases k - i,
    {
        let next = fmul(acc, x);
        assert(0 <= next <= ONE) by (nonlinear_arith)
            requires
                next == (acc * x) / 10000,
                0 <= acc <= 10000,
                0 <= x <= 10000,
        {
            assert(0 <= acc * x <= 10000 * 10000) by (nonlinear_arith)
                requires
                    0 <= acc <= 10000,
                    0 <= x <= 10000,
            ;
        }
        acc = next;
        i = i + 1;
    }
    acc
}

/// Quantises a fixed-point channel to 8 bits after clamping it to `[0, 1]`.
pub fn to_channel(c: i64) -> (r: u8)
    ensures
        r as int == channel_spec(c as int),
{
    let s = saturate(c);
    let v: i64 = s * 255 / ONE;
    assert(v <= 255) by (nonlinear_arith)
        requires
            0 <= s <= 10000,
            v == s * 255 / 10000,
    ;
    v as u8
}

/// Bounds of a fixed-point product from bounds of its factors.
pub proof fn lemma_fmul_bound(a: int, b: int, ma: int, mb: int)
    requires
        -ma <= a <= ma,
        -mb <= b <= mb,
    ensures
        (-(ma * mb)) / (ONE as int) <= fmul_spec(a, b) <= (ma * mb) / (ONE as int),
{
    assert(-(ma * mb) <= a * b <= ma * mb) by (nonlinear_arith)
        requires
            -ma <= a <= ma,
            -mb <= b <= mb,
    ;
    vstd::arithmetic::div_mod::lemma_div_is_ordered(-(ma * mb), a * b, ONE as int);
    vstd::arithmetic::div_mod::lemma_div_is_ordered(a * b, ma * mb, ONE as int);
}

/// The product of two values in `[0, 1]` stays in `[0, 1]`.
pub proof fn lemma_fmul_unit(a: int, b: int)
    requires
        unit(a),
        unit(b),
    ensures
        unit(fmul_spec(a, b)),
        fmul_spec(a, b) <= a,
{
    assert(0 <= a * b <= a * ONE) by (nonlinear_arith)
        requires
            unit(a),
            unit(b),
    ;
    vstd::arithmetic::div_mod::lemma_div_is_ordered(0, a * b, ONE as int);
    vstd::arithmetic::div_mod::lemma_div_is_ordered(a * b, a * ONE, ONE as int);
    vstd::arithmetic::div_mod::lemma_div_by_multiple(a, ONE as int);
}

} // verus!
