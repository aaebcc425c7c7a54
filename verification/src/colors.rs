//! Colours by name, and effect requests that name their colour.

use vstd::prelude::*;
use crate::effects::flash_color;
use crate::effects::flash_plan;
use crate::effects::off_plan;
use crate::effects::plan_view;
use crate::effects::EffectStep;
use crate::error::EffectError;
use crate::state::BlyncControl;
use crate::state::FlashSpeed;
use crate::state::LightState;

verus! {

/// The colour that the SVG/CSS3 keyword table gives for a name, if the
/// table has the name. The table itself is not spelled out here.
pub uninterp spec fn named_color(name: Seq<char>) -> Option<(u8, u8, u8)>;

/// Looks a colour up with `palette::named::from_str`, which reads a fixed
/// table of keyword colours. The result depends on the name alone, and is
/// the red, green and blue of the entry found.
#[verifier::external_body]
fn color_from_name(name: &str) -> (found: Option<(u8, u8, u8)>)
    ensures
        found == named_color(name@),
{
    palette::named::from_str(name).map(|c| (c.red, c.green, c.blue))
}

/// What a lookup means for a request: the colour, or the error for an
/// unknown name.
pub open spec fn color_or_unknown_spec(found: Option<(u8, u8, u8)>) -> Result<
    (u8, u8, u8),
    EffectError,
> {
    match found {
        Some(color) => Ok(color),
        None => Err(EffectError::UnknownColorName),
    }
}

/// Turns the outcome of a lookup into a colour or an error.
pub fn color_or_unknown(found: Option<(u8, u8, u8)>) -> (color: Result<(u8, u8, u8), EffectError>)
    ensures
        color == color_or_unknown_spec(found),
{
    match found {
        Some(color) => Ok(color),
        None => Err(EffectError::UnknownColorName),
    }
}

/// Resolves a colour name. Names are the lower-case SVG/CSS3 keywords.
pub fn resolve_color(name: &str) -> (color: Result<(u8, u8, u8), EffectError>)
    ensures
        color == color_or_unknown_spec(named_color(name@)),
{
    color_or_unknown(color_from_name(name))
}

/// Reads a blink speed from its name: `slow`, `medium` or `fast`.
/// Anything else is refused.
pub open spec fn parse_flashspeed_spec(input: Seq<char>) -> Result<FlashSpeed, EffectError> {
    if input == "fast"@ {
        Ok(FlashSpeed::Fast)
    } else if input == "medium"@ {
        Ok(FlashSpeed::Medium)
    } else if input == "slow"@ {
        Ok(FlashSpeed::Slow)
    } else {
        Err(EffectError::InvalidParameter)
    }
}

/// Reads a blink speed from its name: `slow`, `medium` or `fast`.
/// Anything else is refused.
pub fn parse_flashspeed(input: &str) -> (speed: Result<FlashSpeed, EffectError>)
    ensures
        speed == parse_flashspeed_spec(input@),
{
    let given = input.to_owned();
    if given == "fast".to_owned() {
        Ok(FlashSpeed::Fast)
    } else if given == "medium".to_owned() {
        Ok(FlashSpeed::Medium)
    } else if given == "slow".to_owned() {
        Ok(FlashSpeed::Slow)
    } else {
        Err(EffectError::InvalidParameter)
    }
}

/// A zap: the colour blinking `num_blinks` times, then darkness.
pub open spec fn zap_plan(color: (u8, u8, u8), speed: FlashSpeed, num_blinks: nat) -> Seq<
    (LightState, u64),
> {
    flash_plan(color.0, color.1, color.2, speed, num_blinks) + off_plan()
}

/// The plan of a zap for a colour that was looked up, or the error when
/// the lookup found nothing.
pub open spec fn zap_spec(found: Option<(u8, u8, u8)>, speed: FlashSpeed, num_blinks: nat) -> Result<
    Seq<(LightState, u64)>,
    EffectError,
> {
    match found {
        Some(color) => Ok(zap_plan(color, speed, num_blinks)),
        None => Err(EffectError::UnknownColorName),
    }
}

/// Plans a zap from the outcome of a colour lookup.
pub fn zap_found(found: Option<(u8, u8, u8)>, num_blinks: u64, flash_speed: FlashSpeed) -> (plan:
    Result<Vec<EffectStep>, EffectError>)
    ensures
        match plan {
            Ok(steps) => zap_spec(found, flash_speed, num_blinks as nat) == Ok::<
                Seq<(LightState, u64)>,
                EffectError,
            >(plan_view(steps@)),
            Err(reason) => zap_spec(found, flash_speed, num_blinks as nat) == Err::<
                Seq<(LightState, u64)>,
                EffectError,
            >(reason),
        },
{
    let color = match color_or_unknown(found) {
        Ok(color) => color,
        Err(reason) => {
            return Err(reason);
        },
    };
    let mut steps = flash_color(color.0, color.1, color.2, flash_speed, num_blinks);
    steps.push(EffectStep { state: BlyncControl::turned_off(), delay_ms: 0 });
    assert(plan_view(steps@) =~= zap_plan(color, flash_speed, num_blinks as nat));
    Ok(steps)
}

/// Plans a zap for a named colour: the colour blinking `num_blinks`
/// times at the given speed, then darkness. An unknown name is refused
/// before anything is planned.
pub fn zap(color: &str, num_blinks: u64, flash_speed: FlashSpeed) -> (plan: Result<
    Vec<EffectStep>,
    EffectError,
>)
    ensures
        match plan {
            Ok(steps) => zap_spec(named_color(color@), flash_speed, num_blinks as nat) == Ok::<
                Seq<(LightState, u64)>,
                EffectError,
            >(plan_view(steps@)),
            Err(reason) => zap_spec(named_color(color@), flash_speed, num_blinks as nat) == Err::<
                Seq<(LightState, u64)>,
                EffectError,
            >(reason),
        },
{
    zap_found(color_from_name(color), num_blinks, flash_speed)
}

} // verus!
