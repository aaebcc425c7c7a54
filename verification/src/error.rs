//! Errors raised before anything is sent to the light.

use vstd::prelude::*;

verus! {

/// Why an effect could not be planned.
#[derive(Clone, Copy, Debug, PartialEq, Eq, Structural)]
pub enum EffectError {
    /// No colour goes by the requested name.
    UnknownColorName,
    /// A parameter of the effect is out of range or not understood.
    InvalidParameter,
}

} // verus!
