//! Colour sequences for smooth effects: straight ramps between two
//! colours, and the folded ramp behind the breathing pulse.

use vstd::prelude::*;
use crate::error::EffectError;

verus! {

/// Division that rounds toward zero, for a positive divisor.
pub open spec fn trunc_div(a: int, n: int) -> int {
    if a >= 0 {
        a / n
    } else {
        -((-a) / n)
    }
}

/// One channel at step `i` of `n` on the way from `start` to `end`.
pub open spec fn channel_at(start: u8, end: u8, i: int, n: int) -> int {
    start + trunc_div((end - start) * i, n)
}

/// The colour at step `i` of `n` on the way from `start` to `end`.
pub open spec fn color_at(start: (u8, u8, u8), end: (u8, u8, u8), i: int, n: int) -> (u8, u8, u8) {
    (
        channel_at(start.0, end.0, i, n) as u8,
        channel_at(start.1, end.1, i, n) as u8,
        channel_at(start.2, end.2, i, n) as u8,
    )
}

/// The whole ramp: `n` colours, the first one `start`. The ramp stops one
/// step short of `end`.
pub open spec fn linear_steps_spec(start: (u8, u8, u8), end: (u8, u8, u8), n: nat) -> Seq<
    (u8, u8, u8),
> {
    Seq::new(n, |i: int| color_at(start, end, i, n as int))
}

/// A channel on the ramp never leaves the span between its two ends.
pub proof fn lemma_channel_between(start: u8, end: u8, i: int, n: int)
    requires
        0 <= i < n,
    ensures
        start <= end ==> start <= channel_at(start, end, i, n) <= end,
        start >= end ==> end <= channel_at(start, end, i, n) <= start,
        0 <= channel_at(start, end, i, n) <= 255,
{
    if start <= end {
        let d: int = end - start;
        assert(0 <= (d * i) / n <= d) by (nonlinear_arith)
            requires
                0 <= i < n,
                0 <= d,
        ;
    } else {
        let d: int = start - end;
        assert(-((end - start) * i) == d * i) by (nonlinear_arith)
            requires
                d == start - end,
        ;
        assert(0 <= (d * i) / n <= d) by (nonlinear_arith)
            requires
                0 <= i < n,
                0 <= d,
        ;
        assert((end - start) * i <= 0) by (nonlinear_arith)
            requires
                0 <= i,
                end - start < 0,
        ;
    }
}

/// One channel of one step, computed without leaving the unsigned range.
fn channel_step(start: u8, end: u8, i: u32, n: u32) -> (value: u8)
    requires
        i < n,
    ensures
        value == channel_at(start, end, i as int, n as int),
{
    proof {
        lemma_channel_between(start, end, i as int, n as int);
    }
    if end >= start {
        let span: u64 = (end - start) as u64;
        assert(span * i <= 255 * 0xFFFF_FFFF) by (nonlinear_arith)
            requires
                span <= 255,
                i <= 0xFFFF_FFFF,
        ;
        let moved: u64 = span * (i as u64) / (n as u64);
        assert(moved == trunc_div((end - start) * i, n as int));
        (start as u64 + moved) as u8
    } else {
        let span: u64 = (start - end) as u64;
        assert(span * i <= 255 * 0xFFFF_FFFF) by (nonlinear_arith)
            requires
                span <= 255,
                i <= 0xFFFF_FFFF,
        ;
        let moved: u64 = span * (i as u64) / (n as u64);
        assert(-((end - start) * i) == span * i) by (nonlinear_arith)
            requires
                span == start - end,
        ;
        assert((end - start) * i <= 0) by (nonlinear_arith)
            requires
                0 <= i,
                end - start < 0,
        ;
        assert(moved == -trunc_div((end - start) * i, n as int));
        (start as u64 - moved) as u8
    }
}

/// The ramp from `start` toward `end` in `n` steps.
///
/// Step `i` holds, for each channel, `start + (end - start) * i / n`, the
/// division rounding toward zero. A ramp of zero steps is refused.
pub fn linear_steps(start: (u8, u8, u8), end: (u8, u8, u8), n: u32) -> (ramp: Result<
    Vec<(u8, u8, u8)>,
    EffectError,
>)
    ensures
        n == 0 ==> ramp == Err::<Vec<(u8, u8, u8)>, EffectError>(EffectError::InvalidParameter),
        n > 0 ==> ramp is Ok && ramp->Ok_0@ == linear_steps_spec(start, end, n as nat),
{
    if n == 0 {
        return Err(EffectError::InvalidParameter);
    }
    let mut ramp: Vec<(u8, u8, u8)> = Vec::new();
    let mut i: u32 = 0;
    while i < n
        invariant
            i <= n,
            ramp@.len() == i,
            forall|k: int| 0 <= k < i ==> ramp@[k] == color_at(start, end, k, n as int),
        decreases n - i,
    {
        let r = channel_step(start.0, end.0, i, n);
        let g = channel_step(start.1, end.1, i, n);
        let b = channel_step(start.2, end.2, i, n);
        ramp.push((r, g, b));
        i = i + 1;
    }
    assert(ramp@ =~= linear_steps_spec(start, end, n as nat));
    Ok(ramp)
}

/// The folded ramp at position `x`: `x` itself up to the peak, and its
/// negation beyond.
pub open spec fn pulse_at(peak: int, x: int) -> int {
    if x > peak {
        -x
    } else {
        x
    }
}

/// The folded ramp over the positions 1 to `n`.
pub open spec fn pulse_wave_spec(peak: u16, n: u16) -> Seq<i32> {
    Seq::new(n as nat, |i: int| pulse_at(peak as int, i + 1) as i32)
}

/// The byte that a signed offset stands for on a colour channel: the
/// offset taken modulo 256.
pub open spec fn wrap_channel(offset: int) -> u8 {
    (offset % 256) as u8
}

/// The folded ramp over the positions 1 to `n`: it rises from 1 to `peak`
/// and, past the peak, continues with the negated positions. A wave of
/// zero positions is refused.
pub fn pulse_wave(peak: u16, n: u16) -> (wave: Result<Vec<i32>, EffectError>)
    ensures
        n == 0 ==> wave == Err::<Vec<i32>, EffectError>(EffectError::InvalidParameter),
        n > 0 ==> wave is Ok && wave->Ok_0@ == pulse_wave_spec(peak, n),
{
    if n == 0 {
        return Err(EffectError::InvalidParameter);
    }
    let mut wave: Vec<i32> = Vec::new();
    let mut x: u16 = 0;
    while x < n
        invariant
            x <= n,
            wave@.len() == x,
            forall|k: int| 0 <= k < x ==> wave@[k] == pulse_at(peak as int, k + 1),
        decreases n - x,
    {
        let position: i32 = x as i32 + 1;
        let z: i32 = if position > peak as i32 {
            -position
        } else {
            position
        };
        wave.push(z);
        x = x + 1;
    }
    assert(wave@ =~= pulse_wave_spec(peak, n));
    Ok(wave)
}

/// Puts a signed offset on a colour channel, wrapping modulo 256.
pub fn channel_of_offset(offset: i32) -> (value: u8)
    ensures
        value == wrap_channel(offset as int),
{
    if offset >= 0 {
        (offset % 256) as u8
    } else {
        let below: i64 = (-(offset as i64)) % 256;
        if below == 0 {
            0
        } else {
            (256 - below) as u8
        }
    }
}

/// Up to the peak the wave climbs by one at each position, starting at 1.
pub proof fn lemma_pulse_rises(peak: u16, n: u16, i: int, j: int)
    requires
        0 <= i < j < n,
        j < peak,
    ensures
        pulse_wave_spec(peak, n)[i] == i + 1,
        pulse_wave_spec(peak, n)[j] == j + 1,
        0 < pulse_wave_spec(peak, n)[i] < pulse_wave_spec(peak, n)[j] <= peak,
{
}

/// Past the peak the wave is negative and falls by one at each position.
pub proof fn lemma_pulse_falls(peak: u16, n: u16, i: int, j: int)
    requires
        peak <= i < j < n,
    ensures
        pulse_wave_spec(peak, n)[i] == -(i + 1),
        pulse_wave_spec(peak, n)[j] == -(j + 1),
        pulse_wave_spec(peak, n)[j] < pulse_wave_spec(peak, n)[i] < 0,
{
}

/// No value of the wave is above the peak or below the negated length.
pub proof fn lemma_pulse_bounded(peak: u16, n: u16, i: int)
    requires
        0 <= i < n,
    ensures
        -(n as int) <= pulse_wave_spec(peak, n)[i] <= peak,
        n <= peak ==> 0 < pulse_wave_spec(peak, n)[i] <= n,
{
}

/// With the peak at 255 the channel values mirror each other around
/// position 256: `k` positions after it the channel shows what it showed
/// `k` positions before it.
pub proof fn lemma_pulse_mirrored(k: int)
    requires
        1 <= k <= 255,
    ensures
        wrap_channel(pulse_at(255, 256 + k)) == wrap_channel(pulse_at(255, 256 - k)),
        wrap_channel(pulse_at(255, 256 - k)) == 256 - k,
        wrap_channel(pulse_at(255, 256)) == 0,
{
}

} // verus!
