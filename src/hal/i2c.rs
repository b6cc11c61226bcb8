use vstd::prelude::*;

verus! {

/// I2C clock frequency specifier
/// The values of this enum correspond to the divisor values mentioned in the
/// reference manual
#[derive(Copy, Clone, Debug, PartialEq, Eq, Structural)]
pub enum Fscl {
    F100KHZ,
    F400KHZ,
    F1000KHZ,
}

impl Fscl {
    /// The divisor value of the reference manual.
    pub fn value(self) -> (r: u32)
        ensures
            r == match self {
                Fscl::F100KHZ => 204248u32,
                Fscl::F400KHZ => 872600u32,
                Fscl::F1000KHZ => 2525253u32,
            },
    {
        match self {
            Fscl::F100KHZ => 204248,
            Fscl::F400KHZ => 872600,
            Fscl::F1000KHZ => 2525253,
        }
    }
}

} // verus!
