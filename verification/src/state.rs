//! The logical state of the light and the blink speeds it understands.

use vstd::prelude::*;
use crate::error::EffectError;

verus! {

/// Largest value of the four-bit music index and volume fields.
pub const NIBBLE_MAX: u8 = 15;

/// Largest value of the three-bit blink speed mask.
pub const SPEED_MASK_MAX: u8 = 7;

/// How fast the light blinks while its flash flag is set.
///
/// On the wire each speed is one bit of a three-bit mask.
#[derive(Clone, Copy, Debug, PartialEq, Eq, Structural)]
pub enum FlashSpeed {
    Slow,
    Medium,
    Fast,
}

impl FlashSpeed {
    /// The mask bit that stands for this speed.
    pub open spec fn mask(self) -> u8 {
        match self {
            FlashSpeed::Slow => 1,
            FlashSpeed::Medium => 2,
            FlashSpeed::Fast => 4,
        }
    }

    /// The speed that a mask names, if it names exactly one.
    pub open spec fn of_mask(mask: u8) -> Option<FlashSpeed> {
        if mask == 1 {
            Some(FlashSpeed::Slow)
        } else if mask == 2 {
            Some(FlashSpeed::Medium)
        } else if mask == 4 {
            Some(FlashSpeed::Fast)
        } else {
            None
        }
    }

    /// Returns the mask bit of this speed: 1, 2 or 4.
    pub fn to_u8(&self) -> (bits: u8)
        ensures
            bits == self.mask(),
    {
        match self {
            FlashSpeed::Slow => 1,
            FlashSpeed::Medium => 2,
            FlashSpeed::Fast => 4,
        }
    }

    /// Reads a speed back from a mask. Masks with no bit or with several
    /// bits set name no speed.
    pub fn from_u8(mask: u8) -> (speed: Option<FlashSpeed>)
        ensures
            speed == FlashSpeed::of_mask(mask),
    {
        if mask == 1 {
            Some(FlashSpeed::Slow)
        } else if mask == 2 {
            Some(FlashSpeed::Medium)
        } else if mask == 4 {
            Some(FlashSpeed::Fast)
        } else {
            None
        }
    }

    /// Reading back the mask of a speed gives that speed.
    pub proof fn lemma_mask_round_trip(speed: FlashSpeed)
        ensures
            FlashSpeed::of_mask(speed.mask()) == Some(speed),
    {
    }
}

impl From<FlashSpeed> for u8 {
    /// The mask bit of a speed, as [`FlashSpeed::to_u8`] gives it.
    fn from(speed: FlashSpeed) -> (bits: u8) {
        speed.to_u8()
    }
}

impl vstd::std_specs::convert::FromSpecImpl<FlashSpeed> for u8 {
    open spec fn obeys_from_spec() -> bool {
        true
    }

    open spec fn from_spec(speed: FlashSpeed) -> u8 {
        speed.mask()
    }
}

/// The plain record behind a [`BlyncControl`]: every field of the light's
/// state, with no promise that the narrow fields are in range.
#[derive(Clone, Copy, Debug, PartialEq, Eq, Structural)]
pub struct LightState {
    pub red: u8,
    pub green: u8,
    pub blue: u8,
    pub off: bool,
    pub dim: bool,
    pub flash: bool,
    pub speed: u8,
    pub music: u8,
    pub play: bool,
    pub repeat: bool,
    pub volume: u8,
    pub mute: bool,
}

impl LightState {
    /// Every narrow field fits the bits that the packet gives it.
    pub open spec fn valid(self) -> bool {
        &&& self.speed <= SPEED_MASK_MAX
        &&& self.music <= NIBBLE_MAX
        &&& self.volume <= NIBBLE_MAX
    }

    /// Nothing lit, nothing playing, no flag set.
    pub open spec fn zeroed() -> LightState {
        LightState {
            red: 0,
            green: 0,
            blue: 0,
            off: false,
            dim: false,
            flash: false,
            speed: 0,
            music: 0,
            play: false,
            repeat: false,
            volume: 0,
            mute: false,
        }
    }

    /// A steady colour with every flag cleared.
    pub open spec fn solid(r: u8, g: u8, b: u8) -> LightState {
        LightState { red: r, green: g, blue: b, ..LightState::zeroed() }
    }

    /// The light switched off, colour zeroed.
    pub open spec fn dark() -> LightState {
        LightState { off: true, ..LightState::zeroed() }
    }

    /// A colour that blinks at the given speed.
    pub open spec fn blinking(r: u8, g: u8, b: u8, speed: FlashSpeed) -> LightState {
        LightState { flash: true, speed: speed.mask(), ..LightState::solid(r, g, b) }
    }
}

/// One state of the light, ready to be put on the wire.
///
/// A value always fits the packet: the blink speed mask is below 8, the
/// music index and the volume are below 16. The header and footer of the
/// packet are constants of the wire format and are not stored.
#[derive(Clone, Copy, Debug, PartialEq, Eq, Structural)]
pub struct BlyncControl {
    red: u8,
    green: u8,
    blue: u8,
    off: bool,
    dim: bool,
    flash: bool,
    speed: u8,
    music: u8,
    play: bool,
    repeat: bool,
    volume: u8,
    mute: bool,
}

impl View for BlyncControl {
    type V = LightState;

    closed spec fn view(&self) -> LightState {
        LightState {
            red: self.red,
            green: self.green,
            blue: self.blue,
            off: self.off,
            dim: self.dim,
            flash: self.flash,
            speed: self.speed,
            music: self.music,
            play: self.play,
            repeat: self.repeat,
            volume: self.volume,
            mute: self.mute,
        }
    }
}

impl BlyncControl {
    #[verifier::type_invariant]
    pub open spec fn well_formed(self) -> bool {
        self@.valid()
    }

    /// The state with every field zero: light on but black, no flags.
    pub fn zeroed() -> (state: BlyncControl)
        ensures
            state@ == LightState::zeroed(),
    {
        BlyncControl {
            red: 0,
            green: 0,
            blue: 0,
            off: false,
            dim: false,
            flash: false,
            speed: 0,
            music: 0,
            play: false,
            repeat: false,
            volume: 0,
            mute: false,
        }
    }

    /// A steady colour: the given channels, every flag cleared.
    pub fn with_color(r: u8, g: u8, b: u8) -> (state: BlyncControl)
        ensures
            state@ == LightState::solid(r, g, b),
    {
        BlyncControl {
            red: r,
            green: g,
            blue: b,
            off: false,
            dim: false,
            flash: false,
            speed: 0,
            music: 0,
            play: false,
            repeat: false,
            volume: 0,
            mute: false,
        }
    }
    /// The light switched off, with the colour zeroed as well.
    pub fn turned_off() -> (state: BlyncControl)
        ensures
            state@ == LightState::dark(),
            state@.off,
            state@.red == 0 && state@.green == 0 && state@.blue == 0,
    {
        BlyncControl {
            red: 0,
            green: 0,
            blue: 0,
            off: true,
            dim: false,
            flash: false,
            speed: 0,
            music: 0,
            play: false,
            repeat: false,
            volume: 0,
            mute: false,
        }
    }

    /// A colour that the light blinks by itself at the given speed.
    pub fn flashing(r: u8, g: u8, b: u8, speed: FlashSpeed) -> (state: BlyncControl)
        ensures
            state@ == LightState::blinking(r, g, b, speed),
    {
        BlyncControl {
            red: r,
            green: g,
            blue: b,
            off: false,
            dim: false,
            flash: true,
            speed: speed.to_u8(),
            music: 0,
            play: false,
            repeat: false,
            volume: 0,
            mute: false,
        }
    }

    /// Checks a plain record and, if every field is in range, accepts it.
    pub fn from_state(fields: LightState) -> (checked: Result<BlyncControl, EffectError>)
        ensures
            fields.valid() ==> checked is Ok && checked->Ok_0@ == fields,
            !fields.valid() ==> checked == Err::<BlyncControl, EffectError>(
                EffectError::InvalidParameter,
            ),
    {
        if fields.speed > SPEED_MASK_MAX || fields.music > NIBBLE_MAX || fields.volume
            > NIBBLE_MAX {
            return Err(EffectError::InvalidParameter);
        }
        Ok(BlyncControl::from_valid(fields))
    }

    /// Accepts a record that is known to be in range.
    pub(crate) fn from_valid(fields: LightState) -> (state: BlyncControl)
        requires
            fields.valid(),
        ensures
            state@ == fields,
    {
        BlyncControl {
            red: fields.red,
            green: fields.green,
            blue: fields.blue,
            off: fields.off,
            dim: fields.dim,
            flash: fields.flash,
            speed: fields.speed,
            music: fields.music,
            play: fields.play,
            repeat: fields.repeat,
            volume: fields.volume,
            mute: fields.mute,
        }
    }

    /// The fields of this state as a plain record.
    pub fn state(&self) -> (fields: LightState)
        ensures
            fields == self@,
            fields.valid(),
    {
        proof {
            use_type_invariant(self);
        }
        LightState {
            red: self.red,
            green: self.green,
            blue: self.blue,
            off: self.off,
            dim: self.dim,
            flash: self.flash,
            speed: self.speed,
            music: self.music,
            play: self.play,
            repeat: self.repeat,
            volume: self.volume,
            mute: self.mute,
        }
    }

    /// The blink speed in force: the speed that the mask names, while
    /// the flash flag is set.
    pub open spec fn flash_speed_spec(fields: LightState) -> Option<FlashSpeed> {
        if fields.flash {
            FlashSpeed::of_mask(fields.speed)
        } else {
            None
        }
    }

    /// The blink speed in force, if the light is blinking at one of the
    /// three speeds.
    pub fn flash_speed(&self) -> (speed: Option<FlashSpeed>)
        ensures
            speed == Self::flash_speed_spec(self@),
    {
        if self.flash {
            FlashSpeed::from_u8(self.speed)
        } else {
            None
        }
    }

    /// Two states with the same fields are the same state.
    pub proof fn lemma_view_injective(a: BlyncControl, b: BlyncControl)
        requires
            a@ == b@,
        ensures
            a == b,
    {
    }
}

} // verus!
