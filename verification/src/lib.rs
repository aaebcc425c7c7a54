//! Control packets and effect sequencing for a USB status light.
//!
//! The light shows a colour, can blink on its own, and can play stored
//! tunes. It is driven by fixed-size control packets. This crate holds the
//! packet codec, the colour interpolation used by smooth effects, the
//! planner that turns an effect into an ordered list of timed packets, and
//! the state machine that decides which packet is sent next. Writing to the
//! device and sleeping are left to the caller.

pub mod codec;
pub mod colors;
pub mod driver;
pub mod effects;
pub mod error;
pub mod interpolate;
pub mod state;
