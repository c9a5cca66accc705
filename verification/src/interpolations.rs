//! Piecewise-linear interpolation over an evenly sampled curve.
//!
//! A curve is a slice of fixed-point samples; the parameter `t` is a
//! fixed-point fraction in `[0, 1]`.
use vstd::prelude::*;
use crate::fixed::{blend, lemma_blend_between, mix, SCALE};

verus! {

/// The value at `t` of the periodic curve whose samples are spread evenly
/// over one full cycle: sample `i` sits at `i / len`, and the last segment
/// leads back to sample `0`.
pub open spec fn circle_value(t: int, values: Seq<i64>) -> int {
    let n = values.len() as int;
    let index = (t * n) / (SCALE as int);
    if index == n {
        values[0] as int
    } else {
        blend(values[index] as int, values[(index + 1) % n] as int, (t * n) % (SCALE as int))
    }
}

/// The value at `t` of the bounded curve whose first sample sits at `0` and
/// whose last sample sits at `1`.
pub open spec fn lerp_value(t: int, values: Seq<i64>) -> int {
    let segments = values.len() - 1;
    let index = (t * segments) / (SCALE as int);
    if index == segments {
        values[segments] as int
    } else {
        blend(values[index] as int, values[index + 1] as int, (t * segments) % (SCALE as int))
    }
}

/// Where `t` falls among `parts` equal segments: the segment's index is at
/// most `parts`, and reaches it only at `t == 1`.
pub proof fn lemma_segment_index(t: int, parts: int)
    requires
        0 <= t <= SCALE,
        0 < parts,
    ensures
        0 <= t * parts <= SCALE * parts,
        0 <= (t * parts) / (SCALE as int) <= parts,
        0 <= (t * parts) % (SCALE as int) < SCALE,
        (t * parts) / (SCALE as int) == parts <==> t == SCALE,
        t == SCALE ==> (t * parts) % (SCALE as int) == 0,
{
    let s = SCALE as int;
    let pos = t * parts;
    assert(0 <= pos <= s * parts) by (nonlinear_arith)
        requires
            pos == t * parts,
            0 <= t <= s,
            0 < parts,
    ;
    vstd::arithmetic::div_mod::lemma_fundamental_div_mod(pos, s);
    vstd::arithmetic::div_mod::lemma_mod_bound(pos, s);
    let q = pos / s;
    let r = pos % s;
    assert(0 <= q <= parts && (q == parts ==> r == 0 && t == s)) by (nonlinear_arith)
        requires
            pos == s * q + r,
            0 <= r < s,
            0 <= pos <= s * parts,
            pos == t * parts,
            0 <= t <= s,
            0 < parts,
            s == 1_000_000,
    ;
    if t == s {
        vstd::arithmetic::div_mod::lemma_fundamental_div_mod_converse(pos, s, parts, 0);
    }
}

/// Cyclic interpolation: `values` are samples spread evenly around one full
/// cycle, and `t` is the position within the cycle.
pub fn circle_map(t: i64, values: &[i64]) -> (r: i64)
    requires
        0 <= t <= SCALE,
        values.len() >= 2,
    ensures
        r == circle_value(t as int, values@),
{
    let n: usize = values.len();
    proof {
        lemma_segment_index(t as int, n as int);
    }
    let pos: u128 = (t as u128) * (n as u128);
    let index: usize = (pos / (SCALE as u128)) as usize;
    let offset: i64 = (pos % (SCALE as u128)) as i64;
    if index == n {
        values[0]
    } else {
        let next: usize = (index + 1) % n;
        mix(values[index], values[next], offset)
    }
}

/// Clamped interpolation: `values` are samples spread evenly over `[0, 1]`,
/// both ends included.
pub fn lerp_map(t: i64, values: &[i64]) -> (r: i64)
    requires
        0 <= t <= SCALE,
        values.len() >= 2,
    ensures
        r == lerp_value(t as int, values@),
{
    let segments: usize = values.len() - 1;
    proof {
        lemma_segment_index(t as int, segments as int);
    }
    let pos: u128 = (t as u128) * (segments as u128);
    let index: usize = (pos / (SCALE as u128)) as usize;
    let offset: i64 = (pos % (SCALE as u128)) as i64;
    if index == segments {
        values[index]
    } else {
        mix(values[index], values[index + 1], offset)
    }
}

/// A cyclic curve starts at its first sample and, one full cycle later,
/// is back at it.
pub proof fn lemma_circle_map_periodic(values: Seq<i64>)
    requires
        values.len() >= 1,
    ensures
        circle_value(0, values) == values[0],
        circle_value(SCALE as int, values) == values[0],
{
    let n = values.len() as int;
    lemma_segment_index(0, n);
    lemma_segment_index(SCALE as int, n);
    lemma_blend_between(values[0] as int, values[1int % n] as int, 0);
}

/// A cyclic curve passes through each of its samples: where `k / len` is
/// a fixed-point number, the curve's value there is sample `k`.
pub proof fn lemma_circle_map_on_sample(values: Seq<i64>, k: int)
    requires
        0 <= k < values.len(),
        (k * SCALE) % (values.len() as int) == 0,
    ensures
        circle_value((k * SCALE) / (values.len() as int), values) == values[k],
{
    let n = values.len() as int;
    let s = SCALE as int;
    let t = (k * s) / n;
    vstd::arithmetic::div_mod::lemma_fundamental_div_mod(k * s, n);
    assert(t * n == k * s) by (nonlinear_arith)
        requires
            k * s == n * t + 0,
    ;
    assert(k * s == s * k + 0) by (nonlinear_arith);
    vstd::arithmetic::div_mod::lemma_fundamental_div_mod_converse(k * s, s, k, 0);
    lemma_blend_between(values[k] as int, values[(k + 1) % n] as int, 0);
}

/// A cyclic curve stays within the range of its samples.
pub proof fn lemma_circle_map_bounded(t: int, values: Seq<i64>, low: int, high: int)
    requires
        0 <= t <= SCALE,
        values.len() >= 1,
        forall|i: int| 0 <= i < values.len() ==> low <= #[trigger] values[i] <= high,
    ensures
        low <= circle_value(t, values) <= high,
{
    let n = values.len() as int;
    lemma_segment_index(t, n);
    let index = (t * n) / (SCALE as int);
    if index != n {
        let next = (index + 1) % n;
        vstd::arithmetic::div_mod::lemma_mod_bound(index + 1, n);
        lemma_blend_between(values[index] as int, values[next] as int, (t * n) % (SCALE as int));
    }
}

/// No two neighbouring samples of a cyclic curve, the last and the first
/// among them, differ by more than `step`.
pub open spec fn steps_within(values: Seq<i64>, step: int) -> bool {
    forall|i: int|
        0 <= i < values.len() ==> -step <= values[(i + 1) % (values.len() as int)]
            - #[trigger] values[i] <= step
}

/// Quotients of numbers that are close are close.
proof fn lemma_close_quotients(x: int, y: int, gap: int)
    requires
        -gap <= y - x <= gap,
    ensures
        -(gap / (SCALE as int) + 1) <= y / (SCALE as int) - x / (SCALE as int) <= gap / (
        SCALE as int) + 1,
{
    let s = SCALE as int;
    vstd::arithmetic::div_mod::lemma_fundamental_div_mod(x, s);
    vstd::arithmetic::div_mod::lemma_fundamental_div_mod(y, s);
    vstd::arithmetic::div_mod::lemma_fundamental_div_mod(gap, s);
    vstd::arithmetic::div_mod::lemma_mod_bound(x, s);
    vstd::arithmetic::div_mod::lemma_mod_bound(y, s);
    vstd::arithmetic::div_mod::lemma_mod_bound(gap, s);
}

/// A cyclic curve is continuous: over one smallest step of the parameter
/// its value changes by no more than the curve's steepest segment rises
/// or falls over that step, and one for the rounding.
pub proof fn lemma_circle_map_continuous(t: int, values: Seq<i64>, step: int)
    requires
        0 <= t < SCALE,
        1 <= values.len() <= SCALE,
        steps_within(values, step),
    ensures
        -((values.len() * step) / (SCALE as int) + 1) <= circle_value(t + 1, values)
            - circle_value(t, values) <= (values.len() * step) / (SCALE as int) + 1,
{
    let s = SCALE as int;
    let n = values.len() as int;
    lemma_segment_index(t, n);
    lemma_segment_index(t + 1, n);
    let index = (t * n) / s;
    let offset = (t * n) % s;
    let a = values[index] as int;
    let b = values[(index + 1) % n] as int;
    let before = (s - offset) * a + offset * b;
    vstd::arithmetic::div_mod::lemma_fundamental_div_mod(t * n, s);
    assert((t + 1) * n == t * n + n) by (nonlinear_arith);
    let gap = n * step;
    // the numerator of the blend at t + 1, or of the first sample where the cycle closes
    let after = if offset + n < s {
        vstd::arithmetic::div_mod::lemma_fundamental_div_mod_converse(
            (t + 1) * n,
            s,
            index,
            offset + n,
        );
        let after = (s - (offset + n)) * a + (offset + n) * b;
        assert(-gap <= after - before <= gap) by (nonlinear_arith)
            requires
                after == (s - (offset + n)) * a + (offset + n) * b,
                before == (s - offset) * a + offset * b,
                gap == n * step,
                -step <= b - a <= step,
                n >= 1,
        ;
        after
    } else {
        let rest = offset + n - s;
        vstd::arithmetic::div_mod::lemma_fundamental_div_mod_converse(
            (t + 1) * n,
            s,
            index + 1,
            rest,
        );
        if index + 1 == n {
            vstd::arithmetic::div_mod::lemma_mod_self_0(n);
            let after = s * b;
            assert(-gap <= after - before <= gap) by (nonlinear_arith)
                requires
                    after == s * b,
                    before == (s - offset) * a + offset * b,
                    gap == n * step,
                    -step <= b - a <= step,
                    0 <= s - offset <= n,
            ;
            vstd::arithmetic::div_mod::lemma_div_multiples_vanish(b, s);
            after
        } else {
            vstd::arithmetic::div_mod::lemma_small_mod((index + 1) as nat, n as nat);
            let c = values[(index + 2) % n] as int;
            let after = (s - rest) * b + rest * c;
            assert(-gap <= after - before <= gap) by (nonlinear_arith)
                requires
                    after == (s - rest) * b + rest * c,
                    before == (s - offset) * a + offset * b,
                    gap == n * step,
                    -step <= b - a <= step,
                    -step <= c - b <= step,
                    rest == offset + n - s,
                    0 <= rest,
                    0 <= s - offset,
            ;
            after
        }
    };
    lemma_close_quotients(before, after, gap);
}

/// A bounded curve starts at its first sample and ends at its last.
pub proof fn lemma_lerp_map_ends(values: Seq<i64>)
    requires
        values.len() >= 2,
    ensures
        lerp_value(0, values) == values[0],
        lerp_value(SCALE as int, values) == values[values.len() - 1],
{
    let segments = values.len() - 1;
    lemma_segment_index(0, segments);
    lemma_segment_index(SCALE as int, segments);
    lemma_blend_between(values[0] as int, values[1] as int, 0);
}

/// A bounded curve stays within the range of its samples.
pub proof fn lemma_lerp_map_bounded(t: int, values: Seq<i64>, low: int, high: int)
    requires
        0 <= t <= SCALE,
        values.len() >= 2,
        forall|i: int| 0 <= i < values.len() ==> low <= #[trigger] values[i] <= high,
    ensures
        low <= lerp_value(t, values) <= high,
{
    let segments = values.len() - 1;
    lemma_segment_index(t, segments);
    let index = (t * segments) / (SCALE as int);
    if index != segments {
        lemma_blend_between(
            values[index] as int,
            values[index + 1] as int,
            (t * segments) % (SCALE as int),
        );
    }
}

} // verus!
