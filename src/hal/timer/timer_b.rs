use vstd::prelude::*;

verus! {

/// Clock pre scaler configuration for timer type B
#[derive(Clone, Copy, Debug, PartialEq, Eq, Structural)]
pub enum ClockPrescale {
    /// 1:1 prescale value
    Prescale1,
    /// 1:2 prescale value
    Prescale2,
    /// 1:4 prescale value
    Prescale4,
    /// 1:8 prescale value
    Prescale8,
    /// 1:16 prescale value
    Prescale16,
    /// 1:32 prescale value
    Prescale32,
    /// 1:64 prescale value
    Prescale64,
    /// 1:256 prescale value
    Prescale256,
}

impl ClockPrescale {
    /// Value of the TCKPS field.
    pub fn bits(self) -> (r: u8)
        ensures
            r == match self {
                ClockPrescale::Prescale1 => 0u8,
                ClockPrescale::Prescale2 => 1u8,
                ClockPrescale::Prescale4 => 2u8,
                ClockPrescale::Prescale8 => 3u8,
                ClockPrescale::Prescale16 => 4u8,
                ClockPrescale::Prescale32 => 5u8,
                ClockPrescale::Prescale64 => 6u8,
                ClockPrescale::Prescale256 => 7u8,
            },
    {
        match self {
            ClockPrescale::Prescale1 => 0,
            ClockPrescale::Prescale2 => 1,
            ClockPrescale::Prescale4 => 2,
            ClockPrescale::Prescale8 => 3,
            ClockPrescale::Prescale16 => 4,
            ClockPrescale::Prescale32 => 5,
            ClockPrescale::Prescale64 => 6,
            ClockPrescale::Prescale256 => 7,
        }
    }
}

} // verus!
