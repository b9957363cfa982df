//! Linear scales between a slider range and a colour range.
//!
//! A scale maps a closed input interval onto an output interval, clamping
//! inputs outside the interval to the nearest end. Interior points are
//! interpolated exactly over the rationals and then truncated toward zero.

use vstd::prelude::*;

verus! {

/// Quotient of `n` by a positive `d`, rounded toward zero.
pub open spec fn div_toward_zero(n: int, d: int) -> int
    recommends
        d > 0,
{
    if n >= 0 {
        n / d
    } else {
        -((-n) / d)
    }
}

/// The value at `input` of the scale that sends `in_min` to `out_min` and
/// `in_max` to `out_max`.
///
/// Inputs at or below `in_min` give `out_min`; inputs at or above `in_max`
/// give `out_max` (so an empty or reversed input interval never divides by
/// zero). In between, the exact point on the line through the two ends is
/// rounded toward zero.
pub open spec fn scale_value(in_min: int, in_max: int, out_min: int, out_max: int, input: int) -> int {
    if input <= in_min {
        out_min
    } else if in_max <= input {
        out_max
    } else {
        div_toward_zero(
            out_min * (in_max - in_min) + (out_max - out_min) * (input - in_min),
            in_max - in_min,
        )
    }
}

/// An interior point of a scale lies between the two output ends, whichever
/// of them is the larger.
pub proof fn lemma_scale_value_between(in_min: int, in_max: int, out_min: int, out_max: int, input: int)
    ensures
        out_min <= out_max ==> out_min <= scale_value(in_min, in_max, out_min, out_max, input) <= out_max,
        out_max <= out_min ==> out_max <= scale_value(in_min, in_max, out_min, out_max, input) <= out_min,
{
    if in_min < input && input < in_max {
        let d = in_max - in_min;
        let t = input - in_min;
        let n = out_min * d + (out_max - out_min) * t;
        lemma_weighted_between(out_min, out_max, d, t);
        lemma_weighted_between(out_max, out_min, d, d - t);
        assert(out_max * d + (out_min - out_max) * (d - t) == n) by (nonlinear_arith)
            requires
                n == out_min * d + (out_max - out_min) * t,
        ;
        let lo = if out_min <= out_max { out_min } else { out_max };
        let hi = if out_min <= out_max { out_max } else { out_min };
        assert(lo * d <= n <= hi * d);
        lemma_div_toward_zero_bounds(n, d, lo, hi);
    }
}

proof fn lemma_weighted_between(a: int, b: int, d: int, t: int)
    requires
        0 <= t <= d,
    ensures
        a <= b ==> a * d <= a * d + (b - a) * t <= b * d,
        b <= a ==> b * d <= a * d + (b - a) * t <= a * d,
{
    assert(a <= b ==> 0 <= (b - a) * t <= (b - a) * d) by (nonlinear_arith)
        requires
            0 <= t <= d,
    ;
    assert(b <= a ==> (b - a) * d <= (b - a) * t <= 0) by (nonlinear_arith)
        requires
            0 <= t <= d,
    ;
    assert(a * d + (b - a) * d == b * d) by (nonlinear_arith);
}

proof fn lemma_div_toward_zero_bounds(n: int, d: int, lo: int, hi: int)
    requires
        d > 0,
        lo * d <= n <= hi * d,
    ensures
        lo <= div_toward_zero(n, d) <= hi,
{
    if n >= 0 {
        let q = n / d;
        assert(q * d <= n < (q + 1) * d && q >= 0) by (nonlinear_arith)
            requires
                q == n / d,
                d > 0,
                n >= 0,
        ;
        assert(q <= hi) by (nonlinear_arith)
            requires
                q * d <= n,
                n <= hi * d,
                d > 0,
        ;
        assert(lo <= q) by (nonlinear_arith)
            requires
                lo * d <= n,
                n < (q + 1) * d,
                d > 0,
        ;
    } else {
        let m = -n;
        let q = m / d;
        assert(q * d <= m < (q + 1) * d && q >= 0) by (nonlinear_arith)
            requires
                q == m / d,
                d > 0,
                m >= 0,
        ;
        assert(-q <= hi) by (nonlinear_arith)
            requires
                m < (q + 1) * d,
                -m <= hi * d,
                d > 0,
        ;
        assert(lo <= -q) by (nonlinear_arith)
            requires
                lo * d <= -m,
                q * d <= m,
                d > 0,
        ;
    }
}

/// Computes `scale_value` on machine integers wide enough for both kinds of
/// scale.
fn scale_wide(in_min: i64, in_max: i64, out_min: i64, out_max: i64, input: i64) -> (out: i64)
    requires
        ({
            &&& 0 <= in_min <= 0xffff
            &&& 0 <= in_max <= 0xffff
            &&& 0 <= input <= 0xffff
            &&& -0x8000_0000 <= out_min <= 0x7fff_ffff
            &&& -0x8000_0000 <= out_max <= 0x7fff_ffff
        }) || ({
            &&& -0x8000_0000 <= in_min <= 0x7fff_ffff
            &&& -0x8000_0000 <= in_max <= 0x7fff_ffff
            &&& -0x8000_0000 <= input <= 0x7fff_ffff
            &&& 0 <= out_min <= 0xffff
            &&& 0 <= out_max <= 0xffff
        }),
    ensures
        out == scale_value(in_min as int, in_max as int, out_min as int, out_max as int, input as int),
{
    if input <= in_min {
        return out_min;
    }
    if in_max <= input {
        return out_max;
    }
    let d: i64 = in_max - in_min;
    let t: i64 = input - in_min;
    let span: i64 = out_max - out_min;
    assert(-0x1_0000_0000_0000 <= span * t <= 0x1_0000_0000_0000) by (nonlinear_arith)
        requires
            0 < t < d,
            (d <= 0xffff && -0xffff_ffff <= span <= 0xffff_ffff) || (d <= 0xffff_ffff && -0xffff <= span
                <= 0xffff),
    ;
    assert(-0x1_0000_0000_0000 <= out_min * d <= 0x1_0000_0000_0000) by (nonlinear_arith)
        requires
            0 < d,
            (d <= 0xffff && -0x8000_0000 <= out_min <= 0x7fff_ffff) || (d <= 0xffff_ffff && 0 <= out_min
                <= 0xffff),
    ;
    let n: i64 = out_min * d + span * t;
    if n >= 0 {
        let q: u64 = (n as u64) / (d as u64);
        q as i64
    } else {
        let q: u64 = ((-n) as u64) / (d as u64);
        -(q as i64)
    }
}

/// Builds the scale from a slider range `domain` to a colour range
/// `codomain`: the returned function sends `domain.0` and everything below
/// it to `codomain.0`, `domain.1` and everything above it to `codomain.1`,
/// and interpolates in between, rounding toward zero.
pub fn map_fn(domain: (u16, u16), codomain: (i32, i32)) -> (scale: impl Fn(u16) -> i32)
    ensures
        forall|input: u16| #[trigger] scale.requires((input,)),
        forall|input: u16, output: i32| #[trigger]
            scale.ensures((input,), output) ==> output == scale_value(
                domain.0 as int,
                domain.1 as int,
                codomain.0 as int,
                codomain.1 as int,
                input as int,
            ),
{
    move |input: u16| -> (output: i32)
        ensures
            output == scale_value(
                domain.0 as int,
                domain.1 as int,
                codomain.0 as int,
                codomain.1 as int,
                input as int,
            ),
        {
            proof {
                lemma_scale_value_between(
                    domain.0 as int,
                    domain.1 as int,
                    codomain.0 as int,
                    codomain.1 as int,
                    input as int,
                );
            }
            scale_wide(domain.0 as i64, domain.1 as i64, codomain.0 as i64, codomain.1 as i64, input as i64) as i32
        }
}

/// Builds the inverse kind of scale, from a colour range `domain` back to a
/// slider range `codomain`, with the same clamping and rounding as
/// [`map_fn`].
pub fn map_fn_r(domain: (i32, i32), codomain: (u16, u16)) -> (scale: impl Fn(i32) -> u16)
    ensures
        forall|input: i32| #[trigger] scale.requires((input,)),
        forall|input: i32, output: u16| #[trigger]
            scale.ensures((input,), output) ==> output == scale_value(
                domain.0 as int,
                domain.1 as int,
                codomain.0 as int,
                codomain.1 as int,
                input as int,
            ),
{
    move |input: i32| -> (output: u16)
        ensures
            output == scale_value(
                domain.0 as int,
                domain.1 as int,
                codomain.0 as int,
                codomain.1 as int,
                input as int,
            ),
        {
            proof {
                lemma_scale_value_between(
                    domain.0 as int,
                    domain.1 as int,
                    codomain.0 as int,
                    codomain.1 as int,
                    input as int,
                );
            }
            scale_wide(domain.0 as i64, domain.1 as i64, codomain.0 as i64, codomain.1 as i64, input as i64) as u16
        }
}

} // verus!
