//! Fixed-point scalar arithmetic for the simulation.
//!
//! Every scalar quantity of the simulation (positions, velocities, sizes,
//! blend factors, lean angles) is an `i64` holding a multiple of `1/SCALE`
//! of a world unit.  All arithmetic is exact integer arithmetic, so a tick
//! of the simulation is a pure function of its inputs.

use vstd::prelude::*;

verus! {

/// Raw units per world unit: the scalar `1.0` is stored as `SCALE`.
pub const SCALE: i64 = 1000;

/// Magnitude limit on the scalars the arithmetic helpers accept.  It leaves
/// enough headroom below `i64::MAX` that sums of a few such scalars and
/// products with a blend factor of at most `SCALE` cannot overflow.
pub const SMALL_LIMIT: i64 = 4_000_000_000_000_000;

/// A scalar the arithmetic helpers may be applied to.
pub open spec fn small(v: int) -> bool {
    -SMALL_LIMIT <= v <= SMALL_LIMIT
}

/// Absolute value of a scalar.
pub open spec fn abs_spec(v: int) -> int {
    if v < 0 {
        -v
    } else {
        v
    }
}

/// `v` clamped into the closed interval `[lo, hi]`.
pub open spec fn clamp_spec(v: int, lo: int, hi: int) -> int {
    if v < lo {
        lo
    } else if v > hi {
        hi
    } else {
        v
    }
}

/// Blend of `a` toward `b` by the fixed-point factor `t` (`t == SCALE` is a
/// full step): `a + (t * (b - a)) / SCALE`, the blended step rounded toward
/// negative infinity.
pub open spec fn lerp_spec(a: int, b: int, t: int) -> int {
    a + (t * (b - a)) / (SCALE as int)
}

/// Fixed-point product `(v * f) / SCALE`, rounded toward negative infinity.
pub open spec fn scale_mul_spec(v: int, f: int) -> int {
    (v * f) / (SCALE as int)
}

pub fn abs_val(v: i64) -> (r: i64)
    requires
        small(v as int),
    ensures
        r == abs_spec(v as int),
{
    if v < 0 {
        -v
    } else {
        v
    }
}

pub fn clamp_val(v: i64, lo: i64, hi: i64) -> (r: i64)
    requires
        lo <= hi,
    ensures
        r == clamp_spec(v as int, lo as int, hi as int),
{
    if v < lo {
        lo
    } else if v > hi {
        hi
    } else {
        v
    }
}

/// Quotient of `n` by the positive divisor `d`, rounded toward negative
/// infinity (the rounding `lerp_spec` and `scale_mul_spec` are defined with).
pub fn div_floor(n: i64, d: i64) -> (q: i64)
    requires
        1 <= d <= 1_000_000,
        -9_000_000_000_000_000_000 <= n <= 9_000_000_000_000_000_000,
    ensures
        q == n as int / d as int,
{
    if n >= 0 {
        proof {
            vstd::arithmetic::div_mod::lemma_div_pos_is_pos(n as int, d as int);
            vstd::arithmetic::div_mod::lemma_div_is_ordered_by_denominator(n as int, 1, d as int);
            vstd::arithmetic::div_mod::lemma_div_basics(n as int);
        }
        ((n as u64) / (d as u64)) as i64
    } else {
        let neg: u64 = (-n) as u64;
        let m: u64 = neg + ((d as u64) - 1);
        let q0: u64 = m / (d as u64);
        proof {
            lemma_div_floor_neg(n as int, d as int);
            vstd::arithmetic::div_mod::lemma_div_pos_is_pos(m as int, d as int);
            vstd::arithmetic::div_mod::lemma_div_is_ordered_by_denominator(m as int, 1, d as int);
            vstd::arithmetic::div_mod::lemma_div_basics(m as int);
        }
        -(q0 as i64)
    }
}

/// For a negative numerator, floor division by a positive `d` is the negated
/// rounded-up division of the magnitude.
proof fn lemma_div_floor_neg(n: int, d: int)
    requires
        n < 0,
        1 <= d,
    ensures
        (-n + d - 1) / d == -(n / d),
{
    vstd::arithmetic::div_mod::lemma_fundamental_div_mod(n, d);
    let q = n / d;
    let r = n % d;
    assert(-n + d - 1 == (-q) * d + (d - 1 - r)) by (nonlinear_arith)
        requires
            n == d * q + r,
    ;
    vstd::arithmetic::div_mod::lemma_fundamental_div_mod_converse_div(
        -n + d - 1,
        d,
        -q,
        d - 1 - r,
    );
}

/// Linear interpolation from `a` toward `b` by the fixed-point factor `t`.
pub fn flerp(a: i64, b: i64, t: i64) -> (r: i64)
    requires
        small(a as int),
        small(b as int),
        small(t as int),
        -9_000_000_000_000_000_000 <= t * (b - a) <= 9_000_000_000_000_000_000,
    ensures
        r == lerp_spec(a as int, b as int, t as int),
{
    let d: i64 = b - a;
    let p: i64 = t * d;
    let q: i64 = div_floor(p, SCALE);
    a + q
}

/// Fixed-point product of `v` with a factor `f` in `[0, SCALE]`; the result
/// magnitude never exceeds the input's.
pub fn scale_mul(v: i64, f: i64) -> (r: i64)
    requires
        small(v as int),
        0 <= f <= SCALE,
    ensures
        r == scale_mul_spec(v as int, f as int),
        abs_spec(r as int) <= abs_spec(v as int),
{
    proof {
        assert(-9_000_000_000_000_000_000 <= v * f <= 9_000_000_000_000_000_000)
            by (nonlinear_arith)
            requires
                -4_000_000_000_000_000 <= v <= 4_000_000_000_000_000,
                0 <= f <= 1000,
        ;
        lemma_lerp_between(0, v as int, f as int);
        assert(v * f == f * (v - 0)) by (nonlinear_arith);
    }
    div_floor(v * f, SCALE)
}

/// The blend `lerp_spec(a, b, t)` with a factor in `[0, SCALE]` stays between
/// `a` and `b`, so repeated blending approaches the target monotonically and
/// never overshoots it.
pub proof fn lemma_lerp_between(a: int, b: int, t: int)
    requires
        0 <= t <= SCALE as int,
    ensures
        a <= b ==> a <= lerp_spec(a, b, t) <= b,
        b <= a ==> b <= lerp_spec(a, b, t) <= a,
{
    let d = b - a;
    let s = SCALE as int;
    if d >= 0 {
        vstd::arithmetic::mul::lemma_mul_inequality(t, s, d);
        assert(t * d <= s * d) by {
            vstd::arithmetic::mul::lemma_mul_is_commutative(t, d);
            vstd::arithmetic::mul::lemma_mul_is_commutative(s, d);
        }
        vstd::arithmetic::div_mod::lemma_div_is_ordered(t * d, s * d, s);
        vstd::arithmetic::div_mod::lemma_div_multiples_vanish(d, s);
        vstd::arithmetic::mul::lemma_mul_nonnegative(t, d);
        vstd::arithmetic::div_mod::lemma_div_pos_is_pos(t * d, s);
    } else {
        vstd::arithmetic::mul::lemma_mul_inequality(t, s, -d);
        assert(s * d <= t * d) by (nonlinear_arith)
            requires
                t * (-d) <= s * (-d),
        ;
        vstd::arithmetic::div_mod::lemma_div_is_ordered(s * d, t * d, s);
        vstd::arithmetic::div_mod::lemma_div_multiples_vanish(d, s);
        assert(t * d <= 0) by (nonlinear_arith)
            requires
                t >= 0,
                d < 0,
        ;
        lemma_div_nonpos(t * d, s);
    }
}

/// Floor division of a nonpositive numerator by a positive divisor is
/// nonpositive.
proof fn lemma_div_nonpos(n: int, d: int)
    requires
        n <= 0,
        0 < d,
    ensures
        n / d <= 0,
{
    vstd::arithmetic::div_mod::lemma_div_is_ordered(n, 0, d);
    vstd::arithmetic::div_mod::lemma_div_basics(d);
    assert(0int / d == 0) by {
        vstd::arithmetic::div_mod::lemma_div_multiples_vanish(0, d);
    }
}

} // verus!
