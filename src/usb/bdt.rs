use vstd::prelude::*;

verus! {

/// Descriptor flag: the descriptor is owned by the USB peripheral.
pub const BD_UOWN: u16 = 0x80;
/// Descriptor flag: DATA0/DATA1 toggle of the transaction.
pub const BD_DATA01: u16 = 0x40;
/// Descriptor flag: the peripheral checks the data toggle.
pub const BD_DTS: u16 = 0x08;
/// Descriptor flag: the endpoint answers with a STALL handshake.
pub const BD_STALL: u16 = 0x04;
/// Position of the PID field that the peripheral writes on completion.
pub const BD_PID_POS: u16 = 2;
/// Mask of the PID field.
pub const BD_PID_MSK: u16 = 0x3c;

/// Token PID of an OUT transaction.
pub const USB_PID_OUT: u16 = 0x1;
/// Token PID of an IN transaction.
pub const USB_PID_IN: u16 = 0x9;
/// Token PID of a SETUP transaction.
pub const USB_PID_SETUP: u16 = 0xd;

/// Number of endpoints of the peripheral.
pub const N_ENDPOINTS: usize = 16;
/// Number of descriptors in the table: two directions, two buffers each.
pub const N_DESCRIPTORS: usize = 64;

/// A buffer descriptor as shared between software and the peripheral.
///
/// While `BD_UOWN` is set the peripheral owns the descriptor and its buffer;
/// software sets the bit to hand a buffer over, and the peripheral clears it
/// when the transaction is complete.
#[derive(Clone, Copy, Debug, PartialEq, Eq, Structural)]
pub struct BufferDescriptor {
    pub flags: u16,
    pub byte_count: u16,
}

/// Flags that arm a descriptor for one transaction.
pub open spec fn spec_arm_flags(data01: bool, iso: bool, stall: bool) -> u16 {
    BD_UOWN | ((if data01 { BD_DATA01 } else { 0u16 }) | (if iso { 0u16 } else { BD_DTS }) | (
    if stall { BD_STALL } else { 0u16 }))
}

/// The PID field of a set of flags.
pub open spec fn spec_pid(flags: u16) -> u16 {
    (flags & BD_PID_MSK) >> BD_PID_POS
}

impl BufferDescriptor {
    /// True while the peripheral owns the descriptor.
    pub open spec fn hw_owned(self) -> bool {
        self.flags & BD_UOWN != 0
    }

    /// A descriptor owned by software, with no data.
    pub fn new() -> (r: Self)
        ensures
            r.flags == 0,
            r.byte_count == 0,
            !r.hw_owned(),
    {
        proof {
            assert(0u16 & 0x80u16 == 0) by (bit_vector);
        }
        BufferDescriptor { flags: 0, byte_count: 0 }
    }

    pub fn flags(&self) -> (r: u16)
        ensures
            r == self.flags,
    {
        self.flags
    }

    pub fn set_flags(&mut self, flags: u16)
        ensures
            *final(self) == (BufferDescriptor { flags, ..*old(self) }),
    {
        self.flags = flags;
    }

    pub fn set_byte_count(&mut self, byte_count: u16)
        ensures
            *final(self) == (BufferDescriptor { byte_count, ..*old(self) }),
    {
        self.byte_count = byte_count;
    }

    /// True if the peripheral owns the descriptor.
    pub fn is_hw_owned(&self) -> (r: bool)
        ensures
            r == self.hw_owned(),
    {
        self.flags & BD_UOWN != 0
    }
}

/// Flags that arm a descriptor are owned by the peripheral.
pub proof fn lemma_arm_flags_owned(data01: bool, iso: bool, stall: bool)
    ensures
        spec_arm_flags(data01, iso, stall) & BD_UOWN != 0,
{
    let rest: u16 = (if data01 { BD_DATA01 } else { 0u16 }) | (if iso { 0u16 } else { BD_DTS }) | (
    if stall { BD_STALL } else { 0u16 });
    assert((0x80u16 | rest) & 0x80u16 != 0) by (bit_vector);
}

/// Armed flags carry the stall bit exactly when a stall was asked for.
pub proof fn lemma_arm_flags_stall(data01: bool, iso: bool, stall: bool)
    ensures
        (spec_arm_flags(data01, iso, stall) & BD_STALL != 0) == stall,
{
    let a: u16 = if data01 { BD_DATA01 } else { 0u16 };
    let b: u16 = if iso { 0u16 } else { BD_DTS };
    let c: u16 = if stall { BD_STALL } else { 0u16 };
    assert((a == 0x40u16 || a == 0u16) && (b == 0x08u16 || b == 0u16) && (c == 0x04u16 || c == 0u16)
        ==> ((0x80u16 | (a | b | c)) & 0x04u16 != 0) == (c == 0x04u16)) by (bit_vector);
}

/// Cleared flags mean a descriptor owned by software.
pub proof fn lemma_zero_flags_not_owned()
    ensures
        0u16 & BD_UOWN == 0,
{
    assert(0u16 & 0x80u16 == 0) by (bit_vector);
}

/// The table of buffer descriptors, indexed by
/// `4 * endpoint + 2 * direction + odd`.
pub struct BufferDescriptorTable {
    pub bd: Vec<BufferDescriptor>,
}

impl BufferDescriptorTable {
    /// Well-formed: the table holds all its descriptors.
    pub open spec fn wf(&self) -> bool {
        self.bd@.len() == N_DESCRIPTORS
    }

    /// A table of descriptors that are all owned by software.
    pub fn new() -> (r: Self)
        ensures
            r.wf(),
            forall|i: int| 0 <= i < N_DESCRIPTORS ==> #[trigger] r.bd@[i] == BufferDescriptor::new_spec(),
    {
        let mut bd: Vec<BufferDescriptor> = Vec::new();
        let mut i: usize = 0;
        while i < N_DESCRIPTORS
            invariant
                i <= N_DESCRIPTORS,
                bd@.len() == i,
                forall|j: int| 0 <= j < i ==> #[trigger] bd@[j] == BufferDescriptor::new_spec(),
            decreases N_DESCRIPTORS - i,
        {
            bd.push(BufferDescriptor::new());
            i = i + 1;
        }
        BufferDescriptorTable { bd }
    }
}

impl BufferDescriptor {
    /// The value of a fresh descriptor.
    pub open spec fn new_spec() -> Self {
        BufferDescriptor { flags: 0, byte_count: 0 }
    }
}

} // verus!
