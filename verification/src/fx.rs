//! Saturating fixed-point arithmetic for the audio path.
//!
//! A sample, gain or amplitude is an `i64` holding the real value scaled by
//! [`FX_ONE`]; times are `i64` nanoseconds.  Sums and products saturate at
//! [`FX_MAX`] instead of overflowing, so every signal-path operation is total
//! and its exact result is stated in its contract.

use vstd::arithmetic::div_mod::{lemma_div_is_ordered, lemma_div_multiples_vanish};
use vstd::arithmetic::mul::lemma_mul_is_commutative;
use vstd::prelude::*;

use crate::consts::{FX_MAX, FX_ONE, TIME_CAP};

verus! {

/// A value the fixed-point operations accept and produce.
pub open spec fn fx_in_range(x: int) -> bool {
    -FX_MAX <= x <= FX_MAX
}

/// Magnitude of an integer.
pub open spec fn abs_int(x: int) -> int {
    if x < 0 {
        -x
    } else {
        x
    }
}

/// Saturation at the fixed-point limits.
pub open spec fn clamp_fx(x: int) -> int {
    if x > FX_MAX {
        FX_MAX as int
    } else if x < -FX_MAX {
        -FX_MAX as int
    } else {
        x
    }
}

/// The saturating sum of two fixed-point values.
pub open spec fn fx_add_spec(a: int, b: int) -> int {
    clamp_fx(a + b)
}

/// The saturating difference of two fixed-point values.
pub open spec fn fx_sub_spec(a: int, b: int) -> int {
    clamp_fx(a - b)
}

/// The product of two fixed-point values, rescaled and saturated.
/// The quotient is taken on magnitudes, so it rounds toward zero.
pub open spec fn fx_mul_spec(a: int, b: int) -> int {
    let p = (abs_int(a) * abs_int(b)) / (FX_ONE as int);
    if (a < 0) != (b < 0) {
        clamp_fx(-p)
    } else {
        clamp_fx(p)
    }
}

/// Linear ramp from `a` (at time 0) to `b` (at time `dur`), sampled at `t`.
pub open spec fn ramp_spec(a: int, b: int, t: int, dur: int) -> int {
    (a * (dur - t) + b * t) / dur
}

/// Saturate a raw value into the fixed-point range.
pub fn fx_clamp(x: i64) -> (r: i64)
    ensures
        r as int == clamp_fx(x as int),
{
    if x > FX_MAX {
        FX_MAX
    } else if x < -FX_MAX {
        -FX_MAX
    } else {
        x
    }
}

/// Saturating fixed-point sum.
pub fn fx_add(a: i64, b: i64) -> (r: i64)
    requires
        fx_in_range(a as int),
        fx_in_range(b as int),
    ensures
        r as int == clamp_fx(a + b),
        fx_in_range(r as int),
{
    fx_clamp(a + b)
}

/// Saturating fixed-point difference.
pub fn fx_sub(a: i64, b: i64) -> (r: i64)
    requires
        fx_in_range(a as int),
        fx_in_range(b as int),
    ensures
        r as int == clamp_fx(a - b),
        fx_in_range(r as int),
{
    fx_clamp(a - b)
}

/// Saturating fixed-point product: `(a * b) / FX_ONE` on magnitudes, the
/// sign reattached afterwards.
pub fn fx_mul(a: i64, b: i64) -> (r: i64)
    requires
        fx_in_range(a as int),
        fx_in_range(b as int),
    ensures
        r as int == fx_mul_spec(a as int, b as int),
        fx_in_range(r as int),
{
    let neg: bool = (a < 0) != (b < 0);
    let ma: u64 = if a < 0 {
        (-a) as u64
    } else {
        a as u64
    };
    let mb: u64 = if b < 0 {
        (-b) as u64
    } else {
        b as u64
    };
    assert(ma as int == abs_int(a as int));
    assert(mb as int == abs_int(b as int));
    assert((ma as int) * (mb as int) <= (FX_MAX as int) * (FX_MAX as int)) by (nonlinear_arith)
        requires
            0 <= ma as int <= FX_MAX as int,
            0 <= mb as int <= FX_MAX as int,
    ;
    let p: u128 = (ma as u128) * (mb as u128) / (FX_ONE as u128);
    let q: i64 = if p > (FX_MAX as u128) {
        FX_MAX
    } else {
        p as i64
    };
    if neg {
        -q
    } else {
        q
    }
}

/// Linear interpolation `a → b` over `dur` nanoseconds, evaluated at `t`.
/// Exact at both endpoints (see the ramp lemmas).
pub fn fx_ramp(a: i64, b: i64, t: i64, dur: i64) -> (r: i64)
    requires
        0 <= a <= FX_ONE,
        0 <= b <= FX_ONE,
        0 <= t <= dur,
        1 <= dur <= TIME_CAP,
    ensures
        r as int == ramp_spec(a as int, b as int, t as int, dur as int),
        0 <= r <= FX_ONE,
{
    proof {
        assert((a as int) * ((dur - t) as int) <= (FX_ONE as int) * (TIME_CAP as int))
            by (nonlinear_arith)
            requires
                0 <= a <= FX_ONE,
                0 <= (dur - t) as int <= TIME_CAP as int,
        ;
        assert((b as int) * (t as int) <= (FX_ONE as int) * (TIME_CAP as int)) by (nonlinear_arith)
            requires
                0 <= b <= FX_ONE,
                0 <= t as int <= TIME_CAP as int,
        ;
    }
    let num: u128 = (a as u128) * ((dur - t) as u128) + (b as u128) * (t as u128);
    proof {
        lemma_ramp_bounded(a as int, b as int, t as int, dur as int);
        assert(num as int == (a as int) * (dur - t) + (b as int) * (t as int));
    }
    let r: u64 = (num / (dur as u128)) as u64;
    r as i64
}

/// The ramp never leaves `[0, FX_ONE]` when its endpoints are inside it.
pub proof fn lemma_ramp_bounded(a: int, b: int, t: int, dur: int)
    requires
        0 <= a <= FX_ONE,
        0 <= b <= FX_ONE,
        0 <= t <= dur,
        1 <= dur,
    ensures
        0 <= ramp_spec(a, b, t, dur) <= FX_ONE,
{
    assert(0 <= a * (dur - t) + b * t && a * (dur - t) + b * t <= FX_ONE * dur)
        by (nonlinear_arith)
        requires
            0 <= a <= FX_ONE,
            0 <= b <= FX_ONE,
            0 <= t <= dur,
            1 <= dur,
    ;
    let num = a * (dur - t) + b * t;
    lemma_div_is_ordered(num, FX_ONE * dur, dur);
    lemma_div_multiples_vanish(FX_ONE as int, dur);
    lemma_div_is_ordered(0, num, dur);
}

/// At `t == 0` the ramp sits exactly at its left endpoint.
pub proof fn lemma_ramp_at_start(a: int, b: int, dur: int)
    requires
        1 <= dur,
    ensures
        ramp_spec(a, b, 0, dur) == a,
{
    lemma_mul_is_commutative(a, dur);
    lemma_div_multiples_vanish(a, dur);
}

/// At `t == dur` the ramp sits exactly at its right endpoint.
pub proof fn lemma_ramp_at_end(a: int, b: int, dur: int)
    requires
        1 <= dur,
    ensures
        ramp_spec(a, b, dur, dur) == b,
{
    assert(a * (dur - dur) == 0) by (nonlinear_arith);
    lemma_mul_is_commutative(b, dur);
    lemma_div_multiples_vanish(b, dur);
}

/// Integer square root: the greatest `r` with `r * r <= x`.
pub fn isqrt_u64(x: u64) -> (r: u64)
    ensures
        (r as int) * (r as int) <= x as int,
        (x as int) < (r as int + 1) * (r as int + 1),
        r <= 4_294_967_296,
{
    let mut lo: u64 = 0;
    let mut hi: u64 = 4_294_967_296;
    assert((hi as int) * (hi as int) > x as int);
    while hi - lo > 1
        invariant
            0 <= lo < hi <= 4_294_967_296,
            (lo as int) * (lo as int) <= x as int,
            (x as int) < (hi as int) * (hi as int),
        decreases hi - lo,
    {
        let mid: u64 = lo + (hi - lo) / 2;
        proof {
            assert((mid as int) * (mid as int) <= 4_294_967_296int * 4_294_967_296int)
                by (nonlinear_arith)
                requires
                    0 <= mid as int <= 4_294_967_296int,
            ;
        }
        if (mid as u128) * (mid as u128) <= x as u128 {
            lo = mid;
        } else {
            hi = mid;
        }
    }
    lo
}

/// The larger of two values.
pub fn fx_max(a: i64, b: i64) -> (r: i64)
    ensures
        r as int == if a as int >= b as int { a as int } else { b as int },
{
    if a >= b {
        a
    } else {
        b
    }
}

/// Magnitude of a fixed-point value.
pub fn fx_abs(a: i64) -> (r: i64)
    requires
        fx_in_range(a as int),
    ensures
        r as int == abs_int(a as int),
        fx_in_range(r as int),
{
    if a < 0 {
        -a
    } else {
        a
    }
}

} // verus!
