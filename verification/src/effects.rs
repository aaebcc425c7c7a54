//! Effects as plans: ordered lists of states, each with the pause that
//! follows it. Planning sends nothing; the plan is handed to a
//! [`crate::driver::Driver`], which decides what is written when.

use vstd::prelude::*;
use crate::error::EffectError;
use crate::interpolate::channel_of_offset;
use crate::interpolate::color_at;
use crate::interpolate::linear_steps;
use crate::interpolate::pulse_at;
use crate::interpolate::pulse_wave;
use crate::interpolate::wrap_channel;
use crate::state::BlyncControl;
use crate::state::FlashSpeed;
use crate::state::LightState;

verus! {

/// Pause after each half of a blink, in milliseconds.
pub const FLASH_DELAY_MS: u64 = 50;

/// Pause after each step of a colour transition, in milliseconds.
pub const TRANSITION_DELAY_MS: u64 = 100;

/// The brightest value of a colour channel, and the usual peak of a pulse.
pub const MAX_COLOR: u8 = 255;

/// One step of an effect: a state to send and the pause that follows it.
#[derive(Clone, Copy, Debug, PartialEq, Eq, Structural)]
pub struct EffectStep {
    pub state: BlyncControl,
    pub delay_ms: u64,
}

impl View for EffectStep {
    type V = (LightState, u64);

    open spec fn view(&self) -> (LightState, u64) {
        (self.state@, self.delay_ms)
    }
}

/// A plan as the list of its steps' fields and pauses.
pub open spec fn plan_view(plan: Seq<EffectStep>) -> Seq<(LightState, u64)> {
    plan.map_values(|step: EffectStep| step@)
}

/// A request for an effect: its kind and its parameters.
#[derive(Clone, Copy, Debug, PartialEq, Eq)]
pub enum Effect {
    /// Show one colour.
    SolidColor { r: u8, g: u8, b: u8 },
    /// Switch the light off.
    Off,
    /// Let the light blink by itself, `count` times on and off.
    Flash { r: u8, g: u8, b: u8, speed: FlashSpeed, count: u64 },
    /// Switch the colour on and off `times` times, pausing `delay_ms`
    /// after each write.
    Strobe { r: u8, g: u8, b: u8, delay_ms: u64, times: u32 },
    /// Move from one colour toward another in `steps` steps.
    Transition { start: (u8, u8, u8), end: (u8, u8, u8), steps: u32 },
    /// Breathe `num_cycles` times up to `peak`, then switch off.
    Pulse { num_cycles: u8, peak: u8 },
}

/// The single step of a steady colour.
pub open spec fn solid_plan(r: u8, g: u8, b: u8) -> Seq<(LightState, u64)> {
    seq![(LightState::solid(r, g, b), 0u64)]
}

/// The single step that switches the light off.
pub open spec fn off_plan() -> Seq<(LightState, u64)> {
    seq![(LightState::dark(), 0u64)]
}

/// `count` rounds of a lit state followed by darkness, every step with
/// the same pause.
pub open spec fn blink_plan(lit: LightState, delay_ms: u64, count: nat) -> Seq<(LightState, u64)> {
    Seq::new(
        2 * count,
        |i: int|
            if i % 2 == 0 {
                (lit, delay_ms)
            } else {
                (LightState::dark(), delay_ms)
            },
    )
}

/// Blinking by the light's own flash mode.
pub open spec fn flash_plan(r: u8, g: u8, b: u8, speed: FlashSpeed, count: nat) -> Seq<
    (LightState, u64),
> {
    blink_plan(LightState::blinking(r, g, b, speed), FLASH_DELAY_MS, count)
}

/// Blinking by writing the colour and darkness in turn.
pub open spec fn strobe_plan(r: u8, g: u8, b: u8, delay_ms: u64, times: nat) -> Seq<
    (LightState, u64),
> {
    blink_plan(LightState::solid(r, g, b), delay_ms, times)
}

/// The colours of a linear ramp, one step each.
pub open spec fn transition_plan(start: (u8, u8, u8), end: (u8, u8, u8), steps: nat) -> Seq<
    (LightState, u64),
> {
    Seq::new(
        steps,
        |i: int|
            {
                let c = color_at(start, end, i, steps as int);
                (LightState::solid(c.0, c.1, c.2), TRANSITION_DELAY_MS)
            },
    )
}

/// The state at position `i` of a pulse: red held at the peak, green
/// dark, blue following the folded ramp. Each cycle has `2 * peak`
/// positions.
pub open spec fn pulse_state(peak: u8, i: int) -> LightState {
    LightState::solid(peak, 0, wrap_channel(pulse_at(peak as int, i % (2 * peak) + 1)))
}

/// `cycles` pulses without pauses, then darkness.
pub open spec fn pulse_plan(cycles: nat, peak: u8) -> Seq<(LightState, u64)> {
    Seq::new(
        (cycles * 2 * peak + 1) as nat,
        |i: int|
            if i == cycles * 2 * peak {
                (LightState::dark(), 0u64)
            } else {
                (pulse_state(peak, i), 0u64)
            },
    )
}

/// The plan of any effect, or the reason why it has none: a transition
/// needs at least one step and a pulse a peak above zero.
pub open spec fn effect_plan(effect: Effect) -> Result<Seq<(LightState, u64)>, EffectError> {
    match effect {
        Effect::SolidColor { r, g, b } => Ok(solid_plan(r, g, b)),
        Effect::Off => Ok(off_plan()),
        Effect::Flash { r, g, b, speed, count } => Ok(flash_plan(r, g, b, speed, count as nat)),
        Effect::Strobe { r, g, b, delay_ms, times } => Ok(
            strobe_plan(r, g, b, delay_ms, times as nat),
        ),
        Effect::Transition { start, end, steps } => if steps == 0 {
            Err(EffectError::InvalidParameter)
        } else {
            Ok(transition_plan(start, end, steps as nat))
        },
        Effect::Pulse { num_cycles, peak } => if peak == 0 {
            Err(EffectError::InvalidParameter)
        } else {
            Ok(pulse_plan(num_cycles as nat, peak))
        },
    }
}

/// Plans a steady colour: one step, every flag cleared.
pub fn set_color(r: u8, g: u8, b: u8) -> (plan: Vec<EffectStep>)
    ensures
        plan_view(plan@) == solid_plan(r, g, b),
{
    let mut plan: Vec<EffectStep> = Vec::new();
    plan.push(EffectStep { state: BlyncControl::with_color(r, g, b), delay_ms: 0 });
    assert(plan_view(plan@) =~= solid_plan(r, g, b));
    plan
}

/// Plans switching the light off: one step, colour zeroed, off flag set.
pub fn turn_off() -> (plan: Vec<EffectStep>)
    ensures
        plan_view(plan@) == off_plan(),
        plan@.len() == 1,
        plan@[0].state@.off,
        plan@[0].state@.red == 0 && plan@[0].state@.green == 0 && plan@[0].state@.blue == 0,
{
    let mut plan: Vec<EffectStep> = Vec::new();
    plan.push(EffectStep { state: BlyncControl::turned_off(), delay_ms: 0 });
    assert(plan_view(plan@) =~= off_plan());
    plan
}

/// Plans `count` rounds of `lit` followed by darkness.
fn blink(lit: BlyncControl, delay_ms: u64, count: u64) -> (plan: Vec<EffectStep>)
    ensures
        plan_view(plan@) == blink_plan(lit@, delay_ms, count as nat),
{
    let dark = BlyncControl::turned_off();
    let mut plan: Vec<EffectStep> = Vec::new();
    let mut round: u64 = 0;
    while round < count
        invariant
            round <= count,
            dark@ == LightState::dark(),
            plan@.len() == 2 * round,
            forall|k: int|
                0 <= k < 2 * round ==> (#[trigger] plan@[k])@ == blink_plan(
                    lit@,
                    delay_ms,
                    count as nat,
                )[k],
        decreases count - round,
    {
        plan.push(EffectStep { state: lit, delay_ms });
        plan.push(EffectStep { state: dark, delay_ms });
        round = round + 1;
    }
    assert(plan_view(plan@) =~= blink_plan(lit@, delay_ms, count as nat));
    plan
}

/// Plans a blink by the light's own flash mode: `num_times` rounds of the
/// colour with the flash flag and the speed set, then darkness, with a
/// pause of [`FLASH_DELAY_MS`] after each.
pub fn flash_color(r: u8, g: u8, b: u8, frequency: FlashSpeed, num_times: u64) -> (plan: Vec<
    EffectStep,
>)
    ensures
        plan_view(plan@) == flash_plan(r, g, b, frequency, num_times as nat),
{
    blink(BlyncControl::flashing(r, g, b, frequency), FLASH_DELAY_MS, num_times)
}

/// Plans a strobe: `times` rounds of the steady colour, then darkness,
/// with a pause of `delay` milliseconds after each.
pub fn strobe(r: u8, g: u8, b: u8, delay: u64, times: u32) -> (plan: Vec<EffectStep>)
    ensures
        plan_view(plan@) == strobe_plan(r, g, b, delay, times as nat),
{
    blink(BlyncControl::with_color(r, g, b), delay, times as u64)
}

/// Plans a transition: the linear ramp from `start` toward `end`, one
/// steady colour per step, with a pause of [`TRANSITION_DELAY_MS`] after
/// each. A transition of zero steps is refused.
pub fn transition_colors(start: (u8, u8, u8), end: (u8, u8, u8), steps: u32) -> (plan: Result<
    Vec<EffectStep>,
    EffectError,
>)
    ensures
        steps == 0 ==> plan == Err::<Vec<EffectStep>, EffectError>(EffectError::InvalidParameter),
        steps > 0 ==> plan is Ok && plan_view(plan->Ok_0@) == transition_plan(
            start,
            end,
            steps as nat,
        ),
{
    let ramp = match linear_steps(start, end, steps) {
        Ok(ramp) => ramp,
        Err(reason) => {
            return Err(reason);
        },
    };
    let mut plan: Vec<EffectStep> = Vec::new();
    let mut i: usize = 0;
    while i < ramp.len()
        invariant
            i <= ramp@.len(),
            ramp@.len() == steps,
            plan@.len() == i,
            forall|k: int|
                0 <= k < i ==> (#[trigger] plan@[k])@ == (
                    LightState::solid(ramp@[k].0, ramp@[k].1, ramp@[k].2),
                    TRANSITION_DELAY_MS,
                ),
        decreases ramp@.len() - i,
    {
        let c = ramp[i];
        plan.push(
            EffectStep {
                state: BlyncControl::with_color(c.0, c.1, c.2),
                delay_ms: TRANSITION_DELAY_MS,
            },
        );
        i = i + 1;
    }
    assert(plan_view(plan@) =~= transition_plan(start, end, steps as nat));
    Ok(plan)
}

/// Plans a breathing pulse: `num_cycles` times the folded ramp of
/// `2 * peak` positions on the blue channel, red held at `peak`, no
/// pauses, and darkness at the end. A peak of zero is refused.
pub fn blink_pulse(num_cycles: u8, peak: u8) -> (plan: Result<Vec<EffectStep>, EffectError>)
    ensures
        peak == 0 ==> plan == Err::<Vec<EffectStep>, EffectError>(EffectError::InvalidParameter),
        peak > 0 ==> plan is Ok && plan_view(plan->Ok_0@) == pulse_plan(num_cycles as nat, peak),
{
    let positions: u16 = 2 * (peak as u16);
    let wave = match pulse_wave(peak as u16, positions) {
        Ok(wave) => wave,
        Err(reason) => {
            return Err(reason);
        },
    };
    let mut plan: Vec<EffectStep> = Vec::new();
    let mut cycle: u8 = 0;
    while cycle < num_cycles
        invariant
            cycle <= num_cycles,
            peak > 0,
            positions == 2 * peak,
            wave@.len() == positions,
            forall|x: int| 0 <= x < positions ==> wave@[x] == pulse_at(peak as int, x + 1),
            plan@.len() == cycle * positions,
            forall|k: int|
                0 <= k < cycle * positions ==> (#[trigger] plan@[k])@ == (
                    pulse_state(peak, k),
                    0u64,
                ),
        decreases num_cycles - cycle,
    {
        let mut x: usize = 0;
        while x < wave.len()
            invariant
                x <= wave@.len(),
                cycle < num_cycles,
                peak > 0,
                positions == 2 * peak,
                wave@.len() == positions,
                forall|x: int| 0 <= x < positions ==> wave@[x] == pulse_at(peak as int, x + 1),
                plan@.len() == cycle * positions + x,
                forall|k: int|
                    0 <= k < cycle * positions + x ==> (#[trigger] plan@[k])@ == (
                        pulse_state(peak, k),
                        0u64,
                    ),
            decreases wave@.len() - x,
        {
            let blue = channel_of_offset(wave[x]);
            proof {
                let k: int = cycle * positions + x;
                assert(k % (positions as int) == x) by (nonlinear_arith)
                    requires
                        k == cycle * positions + x,
                        0 <= x < positions,
                        0 <= cycle,
                ;
            }
            plan.push(EffectStep { state: BlyncControl::with_color(peak, 0, blue), delay_ms: 0 });
            x = x + 1;
        }
        assert(cycle * positions + positions == (cycle + 1) * positions) by (nonlinear_arith);
        cycle = cycle + 1;
    }
    assert(num_cycles * positions == num_cycles * 2 * peak) by (nonlinear_arith)
        requires
            positions == 2 * peak,
    ;
    plan.push(EffectStep { state: BlyncControl::turned_off(), delay_ms: 0 });
    assert(plan_view(plan@) =~= pulse_plan(num_cycles as nat, peak));
    Ok(plan)
}

/// Every step of a blink by the flash mode is either the colour with the
/// flash flag and the mask bit of the requested speed, or darkness.
pub proof fn lemma_flash_steps(r: u8, g: u8, b: u8, speed: FlashSpeed, count: nat, i: int)
    requires
        0 <= i < 2 * count,
    ensures
        i % 2 == 0 ==> flash_plan(r, g, b, speed, count)[i] == (
            LightState::blinking(r, g, b, speed),
            FLASH_DELAY_MS,
        ),
        i % 2 == 1 ==> flash_plan(r, g, b, speed, count)[i] == (
            LightState::dark(),
            FLASH_DELAY_MS,
        ),
        LightState::blinking(r, g, b, speed).flash,
        LightState::blinking(r, g, b, speed).speed == speed.mask(),
        speed == FlashSpeed::Fast ==> LightState::blinking(r, g, b, speed).speed == 4,
{
}

/// A pulse has `cycles * 2 * peak` lit steps and one more, which is
/// darkness.
pub proof fn lemma_pulse_ends_dark(cycles: nat, peak: u8)
    ensures
        pulse_plan(cycles, peak).len() == cycles * 2 * peak + 1,
        pulse_plan(cycles, peak).last() == (LightState::dark(), 0u64),
{
    assert(cycles * 2 * peak >= 0) by (nonlinear_arith)
        requires
            cycles >= 0,
            peak >= 0,
    ;
}

/// Plans any effect.
pub fn plan(effect: Effect) -> (planned: Result<Vec<EffectStep>, EffectError>)
    ensures
        match planned {
            Ok(steps) => effect_plan(effect) == Ok::<Seq<(LightState, u64)>, EffectError>(
                plan_view(steps@),
            ),
            Err(reason) => effect_plan(effect) == Err::<Seq<(LightState, u64)>, EffectError>(
                reason,
            ),
        },
{
    match effect {
        Effect::SolidColor { r, g, b } => Ok(set_color(r, g, b)),
        Effect::Off => Ok(turn_off()),
        Effect::Flash { r, g, b, speed, count } => Ok(flash_color(r, g, b, speed, count)),
        Effect::Strobe { r, g, b, delay_ms, times } => Ok(strobe(r, g, b, delay_ms, times)),
        Effect::Transition { start, end, steps } => transition_colors(start, end, steps),
        Effect::Pulse { num_cycles, peak } => blink_pulse(num_cycles, peak),
    }
}

} // verus!
