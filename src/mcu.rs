use vstd::prelude::*;

verus! {

/// Physical address, as used by bus-master peripherals.
#[derive(Clone, Copy, Debug, Default, PartialEq, Eq, Structural)]
pub struct PhysicalAddress {
    addr: usize,
}

impl PhysicalAddress {
    pub closed spec fn view(self) -> usize {
        self.addr
    }

    /// Create a `PhysicalAddress` by giving its value directly.
    pub fn from_usize(addr: usize) -> (r: Self)
        ensures
            r@ == addr,
    {
        PhysicalAddress { addr }
    }

    /// The value of the address, for programming bus-master peripherals.
    pub fn address(&self) -> (r: usize)
        ensures
            r == self@,
    {
        self.addr
    }
}

/// Start of the unmapped, cached kernel segment KSEG0.
pub const KSEG0_BASE: usize = 0x8000_0000;

/// Offset of the user segment KUSEG in physical memory under the fixed
/// mapping translation.
pub const KUSEG_OFFSET: usize = 0x4000_0000;

/// Physical address of a virtual address under the fixed mapping translation
/// of the M4K core: the kernel segments drop their top three bits, the user
/// segment is shifted up by `KUSEG_OFFSET`.
pub open spec fn spec_virt_to_phys(virt: int) -> int {
    if virt >= KSEG0_BASE {
        virt % 0x2000_0000
    } else {
        virt + KUSEG_OFFSET
    }
}

/// Convert a virtual to a physical address given as `usize` values.
fn virt_to_phys_usize(virt: usize) -> (r: usize)
    requires
        virt <= u32::MAX,
    ensures
        r == spec_virt_to_phys(virt as int),
{
    if virt >= KSEG0_BASE {
        proof {
            assert(virt & 0x1fff_ffffusize == virt % 0x2000_0000) by (bit_vector);
        }
        virt & 0x1fff_ffff
    } else {
        virt + KUSEG_OFFSET
    }
}

/// Physical address of the object at the virtual address `virt`.
pub fn virt_to_phys(virt: usize) -> (r: PhysicalAddress)
    requires
        virt <= u32::MAX,
    ensures
        r@ == spec_virt_to_phys(virt as int),
{
    PhysicalAddress { addr: virt_to_phys_usize(virt) }
}

} // verus!
