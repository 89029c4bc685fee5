//! The hardware modules and the commands each of them understands.

use vstd::prelude::*;

pub mod codec;
pub mod registry;
pub mod serde;
pub mod word;

verus! {

/// A hardware module that can be addressed by a frame.
#[derive(Debug, Clone, Copy, PartialEq, Eq, Structural)]
pub enum Module {
    Ballast,
    Light,
    Propulsion,
}

/// What the ballast tank is told to do.
#[derive(Debug, Copy, Clone, PartialEq, Eq, Structural)]
pub enum BallastCommand {
    Idle,
    Intake,
    Discharge,
}

/// What the propulsion unit is told to do.
#[derive(Copy, Clone, Debug, PartialEq, Eq, Structural)]
pub enum PropulsionCommand {
    SetThrust(DirectionVector),
}

/// A thrust direction with two single-precision components.
///
/// Each component is held as its IEEE-754 binary32 bit pattern, exactly as it
/// travels on the wire. No pattern is excluded: NaNs and infinities pass
/// through unchanged, and nothing is normalised or range-checked.
#[derive(Copy, Clone, Debug, PartialEq, Eq, Structural)]
pub struct DirectionVector {
    /// Bit pattern of the x component.
    pub x: u32,
    /// Bit pattern of the y component.
    pub y: u32,
}

/// What the lights are told to do.
#[derive(Copy, Clone, Debug, PartialEq, Eq, Structural)]
pub enum LightCommand {
    On,
    Off,
    Blink,
}

/// A command together with the module it is meant for.
#[derive(Copy, Clone, Debug, PartialEq, Eq, Structural)]
pub enum Command {
    Ballast(BallastCommand),
    Propulsion(PropulsionCommand),
    Light(LightCommand),
}

} // verus!
