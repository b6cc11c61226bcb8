use vstd::prelude::*;

verus! {

/// Marker for configurations where the even numbered 16-bit timer (e.g. Timer 2) is used as a time base
pub struct Timebase16even;

/// Marker for configurations where the odd numbered 16-bit timer (e.g. Timer 3) is used as a time base
pub struct Timebase16odd;

/// Marker for configurations where two 16-bits timer form a 32-bit time base
pub struct Timebase32;

/// Output compare configuration (excluding PWM modes)
#[derive(Clone, Copy, Debug, PartialEq, Eq, Structural)]
pub enum OcConfig {
    /// No operation
    Off,
    /// Rising slope when the timer is equal to the specified value
    RisingSlope(u32),
    /// Falling slope when the timer is equal to the specified value
    FallingSlope(u32),
    /// Toggle when the timer is equal to the specified value
    Toggle(u32),
    /// Single pulse with values defining the rising edge and falling edge, respectively
    SinglePulse(u32, u32),
    /// Continuous pulses with values defining the rising edges and falling edges, respectively
    ContinuousPulses(u32, u32),
}

impl OcConfig {
    /// Value of the OCM field for this configuration.
    pub fn ocm_bits(&self) -> (r: u8)
        ensures
            r == match *self {
                OcConfig::Off => 0b000u8,
                OcConfig::RisingSlope(_) => 0b001u8,
                OcConfig::FallingSlope(_) => 0b010u8,
                OcConfig::Toggle(_) => 0b011u8,
                OcConfig::SinglePulse(_, _) => 0b100u8,
                OcConfig::ContinuousPulses(_, _) => 0b101u8,
            },
    {
        match self {
            OcConfig::Off => 0b000,
            OcConfig::RisingSlope(_) => 0b001,
            OcConfig::FallingSlope(_) => 0b010,
            OcConfig::Toggle(_) => 0b011,
            OcConfig::SinglePulse(_, _) => 0b100,
            OcConfig::ContinuousPulses(_, _) => 0b101,
        }
    }
}

} // verus!
