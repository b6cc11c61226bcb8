use vstd::prelude::*;

verus! {

/// Interrupt flag or enable bits related to a specific DMA channel
#[derive(Copy, Clone, Debug, PartialEq, Eq, Structural)]
pub enum DmaIrq {
    /// Channel Source Done
    CHSD,
    /// Channel Source Half Empty
    CHSH,
    /// Channel Destination Done
    CHDD,
    /// Channel Destination Half Full
    CHDH,
    /// Channel Block Transfer Complete
    CHBC,
    /// Channel Cell Transfer Complete
    CHCC,
    /// Channel Transfer Abort
    CHTA,
    ///  Channel Address Error
    CHER,
}

impl DmaIrq {
    /// The flag's bit in the channel interrupt control register.
    pub open spec fn value(self) -> u8 {
        match self {
            DmaIrq::CHSD => 0x80,
            DmaIrq::CHSH => 0x40,
            DmaIrq::CHDD => 0x20,
            DmaIrq::CHDH => 0x10,
            DmaIrq::CHBC => 0x08,
            DmaIrq::CHCC => 0x04,
            DmaIrq::CHTA => 0x02,
            DmaIrq::CHER => 0x01,
        }
    }

    /// The flag's bit in the channel interrupt control register.
    pub fn bits(self) -> (r: u8)
        ensures
            r == self.value(),
    {
        match self {
            DmaIrq::CHSD => 0x80,
            DmaIrq::CHSH => 0x40,
            DmaIrq::CHDD => 0x20,
            DmaIrq::CHDH => 0x10,
            DmaIrq::CHBC => 0x08,
            DmaIrq::CHCC => 0x04,
            DmaIrq::CHTA => 0x02,
            DmaIrq::CHER => 0x01,
        }
    }
}

/// indicates whether the channel shall be automatically enabled after a block
/// transfer
#[derive(Copy, Clone, Debug, PartialEq, Eq, Structural)]
pub enum XferMode {
    OneShot,
    Auto,
}

} // verus!
