use vstd::prelude::*;

verus! {

/// Clock pre scaler configuration for timer type A
#[derive(Clone, Copy, Debug, PartialEq, Eq, Structural)]
pub enum ClockPrescale {
    /// 1:1 prescale value
    Prescale1,
    /// 1:8 prescale value
    Prescale8,
    /// 1:64 prescale value
    Prescale64,
    /// 1:256 prescale value
    Prescale256,
}

impl ClockPrescale {
    /// Value of the TCKPS field.
    pub fn bits(self) -> (r: u8)
        ensures
            r == match self {
                ClockPrescale::Prescale1 => 0u8,
                ClockPrescale::Prescale8 => 1u8,
                ClockPrescale::Prescale64 => 2u8,
                ClockPrescale::Prescale256 => 3u8,
            },
    {
        match self {
            ClockPrescale::Prescale1 => 0,
            ClockPrescale::Prescale8 => 1,
            ClockPrescale::Prescale64 => 2,
            ClockPrescale::Prescale256 => 3,
        }
    }
}

/// Marker for Synchronous operation
pub struct TimerSynchronous;

/// Marker for Asynchronous operation
pub struct TimerAsynchronous;

} // verus!
