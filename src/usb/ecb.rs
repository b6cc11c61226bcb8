use vstd::prelude::*;
use crate::usb::bdt::{
    spec_arm_flags, BufferDescriptor, BufferDescriptorTable, BD_DATA01, BD_DTS, BD_STALL, BD_UOWN,
    N_DESCRIPTORS,
};
use crate::usb::types::{EndpointType, UsbError};

verus! {

/// Software state of one endpoint direction: a pipeline of two transaction
/// buffers (even and odd) over a pair of buffer descriptors.
///
/// `armed_ctr` counts transactions handed to the peripheral and not yet
/// completed; `complete_ctr` counts transactions completed by the peripheral
/// and not yet consumed by software. Together they never exceed the two
/// buffers.
pub struct EndpointControlBlock {
    /// The next buffer to arm is the odd one.
    pub next_odd: bool,
    /// Data toggle for the next transaction.
    pub data01: bool,
    pub stalled: bool,
    pub armed_ctr: u8,
    pub complete_ctr: u8,
    /// The next completed buffer to consume is the odd one.
    pub next_complete_odd: bool,
    pub ep_type: EndpointType,
    /// Maximum packet size, and the size of each buffer.
    pub ep_size: u16,
    pub buf_even: Vec<u8>,
    pub buf_odd: Vec<u8>,
    /// Index of the even descriptor of this block's pair in the table.
    pub bd: usize,
}

/// Index of the descriptor for the even or odd buffer of a pair.
pub open spec fn spec_bd_index(base: usize, odd: bool) -> int {
    base + if odd { 1int } else { 0int }
}

/// Parity after `n` more transactions.
pub open spec fn spec_advance(odd: bool, n: u8) -> bool {
    if n % 2 == 1 { !odd } else { odd }
}

impl EndpointControlBlock {
    /// Well-formed: at most two transactions outstanding, two buffers of the
    /// packet size, and an aligned descriptor pair inside the table.
    pub open spec fn wf(&self) -> bool {
        &&& self.armed_ctr + self.complete_ctr <= 2
        &&& self.buf_even@.len() == self.ep_size
        &&& self.buf_odd@.len() == self.ep_size
        &&& self.bd % 2 == 0
        &&& self.bd + 1 < N_DESCRIPTORS
    }

    /// Contents of the even or odd buffer.
    pub open spec fn buf(&self, odd: bool) -> Seq<u8> {
        if odd { self.buf_odd@ } else { self.buf_even@ }
    }

    pub open spec fn is_iso(&self) -> bool {
        self.ep_type == EndpointType::Isochronous
    }

    /// The counters and toggles after a successful arm.
    pub open spec fn spec_after_arm(&self, other: &Self, stall: bool) -> bool {
        &&& other.next_odd == (if stall { self.next_odd } else { !self.next_odd })
        &&& other.armed_ctr == (if stall { self.armed_ctr } else { (self.armed_ctr + 1) as u8 })
        &&& other.stalled == stall
        &&& other.data01 == (if self.is_iso() { self.data01 } else { !self.data01 })
        &&& other.complete_ctr == self.complete_ctr
        &&& other.next_complete_odd == self.next_complete_odd
        &&& other.ep_type == self.ep_type
        &&& other.ep_size == self.ep_size
        &&& other.bd == self.bd
    }

    /// All fields but the buffers are equal.
    pub open spec fn same_state(&self, other: &Self) -> bool {
        &&& other.next_odd == self.next_odd
        &&& other.data01 == self.data01
        &&& other.stalled == self.stalled
        &&& other.armed_ctr == self.armed_ctr
        &&& other.complete_ctr == self.complete_ctr
        &&& other.next_complete_odd == self.next_complete_odd
        &&& other.ep_type == self.ep_type
        &&& other.ep_size == self.ep_size
        &&& other.bd == self.bd
    }

    /// Outcome of `write` of `buf` from this block over descriptors `bd`,
    /// giving result `r`, block `e` and descriptors `bd2`.
    pub open spec fn write_post(
        &self,
        bd: Seq<BufferDescriptor>,
        buf: Seq<u8>,
        r: Result<usize, UsbError>,
        e: Self,
        bd2: Seq<BufferDescriptor>,
    ) -> bool {
        let owned = bd[spec_bd_index(self.bd, self.next_odd)].hw_owned();
        &&& owned ==> r == Err::<usize, UsbError>(UsbError::WouldBlock)
        &&& !owned && buf.len() > self.ep_size ==> r == Err::<usize, UsbError>(
            UsbError::BufferOverflow,
        )
        &&& !owned && buf.len() <= self.ep_size && self.armed_ctr + self.complete_ctr >= 2 ==> r
            == Err::<usize, UsbError>(UsbError::WouldBlock)
        &&& !owned && buf.len() <= self.ep_size && self.armed_ctr + self.complete_ctr < 2 ==> r
            == Ok::<usize, UsbError>(buf.len() as usize)
        &&& r.is_err() ==> e == *self && bd2 == bd
        &&& r.is_ok() ==> {
            &&& self.spec_after_arm(&e, false)
            &&& e.buf(self.next_odd) == buf + self.buf(self.next_odd).subrange(
                buf.len() as int,
                self.ep_size as int,
            )
            &&& e.buf(!self.next_odd) == self.buf(!self.next_odd)
            &&& bd2 == bd.update(
                spec_bd_index(self.bd, self.next_odd),
                self.spec_armed_bd(buf.len() as usize, false),
            )
        }
    }

    /// Outcome of `read` into `buf` from this block over descriptors `bd`,
    /// giving result `r`, block `e`, descriptors `bd2` and buffer `buf2`.
    pub open spec fn read_post(
        &self,
        bd: Seq<BufferDescriptor>,
        buf: Seq<u8>,
        r: Result<usize, UsbError>,
        e: Self,
        bd2: Seq<BufferDescriptor>,
        buf2: Seq<u8>,
    ) -> bool {
        let c = bd[spec_bd_index(self.bd, self.next_complete_odd)].byte_count;
        &&& self.complete_ctr == 0 ==> r == Err::<usize, UsbError>(UsbError::WouldBlock)
        &&& self.complete_ctr > 0 && (c > buf.len() || c > self.ep_size) ==> r == Err::<
            usize,
            UsbError,
        >(UsbError::BufferOverflow)
        &&& self.complete_ctr > 0 && c <= buf.len() && c <= self.ep_size ==> r == Ok::<
            usize,
            UsbError,
        >(c as usize)
        &&& r.is_err() ==> e == *self && bd2 == bd && buf2 == buf
        &&& r.is_ok() ==> {
            &&& buf2 == self.buf(self.next_complete_odd).subrange(0, c as int) + buf.subrange(
                c as int,
                buf.len() as int,
            )
            &&& e.complete_ctr == self.complete_ctr - 1
            &&& e.armed_ctr == self.armed_ctr + 1
            &&& e.next_complete_odd == !self.next_complete_odd
            &&& e.next_odd == !self.next_odd
            &&& e.data01 == (if self.is_iso() { self.data01 } else { !self.data01 })
            &&& !e.stalled
            &&& e.ep_type == self.ep_type
            &&& e.ep_size == self.ep_size
            &&& e.bd == self.bd
            &&& e.buf_even@ == self.buf_even@
            &&& e.buf_odd@ == self.buf_odd@
            &&& bd2 == bd.update(
                spec_bd_index(self.bd, self.next_odd),
                self.spec_armed_bd(self.ep_size as usize, false),
            )
        }
    }

    /// Descriptor that arms the buffer of parity `next_odd` with `len` bytes.
    pub open spec fn spec_armed_bd(&self, len: usize, stall: bool) -> BufferDescriptor {
        BufferDescriptor {
            flags: spec_arm_flags(self.data01, self.is_iso(), stall),
            byte_count: len as u16,
        }
    }

    /// Create the block for a descriptor pair starting at `bd`, with two
    /// zeroed buffers of `ep_size` bytes, and hand both descriptors to
    /// software.
    pub fn allocate(ep_size: u16, ep_type: EndpointType, bd: usize, bdt: &mut BufferDescriptorTable) -> (r:
        Self)
        requires
            old(bdt).wf(),
            bd % 2 == 0,
            bd + 1 < N_DESCRIPTORS,
        ensures
            r.wf(),
            final(bdt).wf(),
            r.bd == bd,
            r.ep_size == ep_size,
            r.ep_type == ep_type,
            r.armed_ctr == 0,
            r.complete_ctr == 0,
            !r.next_odd,
            !r.next_complete_odd,
            !r.data01,
            !r.stalled,
            final(bdt).bd@ == old(bdt).bd@.update(bd as int, BufferDescriptor {
                flags: 0,
                ..old(bdt).bd@[bd as int]
            }).update(bd + 1, BufferDescriptor { flags: 0, ..old(bdt).bd@[bd + 1] }),
    {
        let buf_even: Vec<u8> = vec![0u8; ep_size as usize];
        let buf_odd: Vec<u8> = vec![0u8; ep_size as usize];
        let mut d0 = bdt.bd[bd];
        d0.set_flags(0);
        bdt.bd[bd] = d0;
        let mut d1 = bdt.bd[bd + 1];
        d1.set_flags(0);
        bdt.bd[bd + 1] = d1;
        EndpointControlBlock {
            next_odd: false,
            data01: false,
            stalled: false,
            armed_ctr: 0,
            complete_ctr: 0,
            next_complete_odd: false,
            ep_type,
            ep_size,
            buf_even,
            buf_odd,
            bd,
        }
    }

    /// Index of the descriptor of the buffer to arm next.
    fn next_bd(&self) -> (r: usize)
        requires
            self.wf(),
        ensures
            r == spec_bd_index(self.bd, self.next_odd),
            r < N_DESCRIPTORS,
    {
        if self.next_odd {
            self.bd + 1
        } else {
            self.bd
        }
    }

    /// True if the buffer to arm next is owned by software.
    pub fn can_arm(&self, bdt: &BufferDescriptorTable) -> (r: bool)
        requires
            self.wf(),
            bdt.wf(),
        ensures
            r == !bdt.bd@[spec_bd_index(self.bd, self.next_odd)].hw_owned(),
    {
        let i = self.next_bd();
        !bdt.bd[i].is_hw_owned()
    }

    /// Hand the next buffer to the peripheral for a transaction of `len`
    /// bytes, or, with `stall`, make the endpoint answer with STALL.
    pub fn arm_generic(&mut self, bdt: &mut BufferDescriptorTable, len: usize, stall: bool) -> (r:
        Result<usize, UsbError>)
        requires
            old(self).wf(),
            old(bdt).wf(),
        ensures
            final(self).wf(),
            final(bdt).wf(),
            len > old(self).ep_size ==> r == Err::<usize, UsbError>(UsbError::BufferOverflow),
            len <= old(self).ep_size && old(self).armed_ctr + old(self).complete_ctr >= 2 ==> r
                == Err::<usize, UsbError>(UsbError::WouldBlock),
            len <= old(self).ep_size && old(self).armed_ctr + old(self).complete_ctr < 2
                && old(self).stalled && stall ==> r == Err::<usize, UsbError>(
                UsbError::InvalidState),
            len <= old(self).ep_size && old(self).armed_ctr + old(self).complete_ctr < 2 && !(
            old(self).stalled && stall) ==> r == Ok::<usize, UsbError>(len),
            r.is_err() ==> *final(self) == *old(self) && final(bdt).bd@ == old(bdt).bd@,
            r.is_ok() ==> {
                &&& old(self).spec_after_arm(&*final(self), stall)
                &&& final(self).buf_even@ == old(self).buf_even@
                &&& final(self).buf_odd@ == old(self).buf_odd@
                &&& final(bdt).bd@ == old(bdt).bd@.update(
                    spec_bd_index(old(self).bd, old(self).next_odd),
                    old(self).spec_armed_bd(len, stall),
                )
            },
    {
        if len > self.ep_size as usize {
            return Err(UsbError::BufferOverflow);
        }
        if self.armed_ctr + self.complete_ctr >= 2 {
            return Err(UsbError::WouldBlock);
        }
        if self.stalled && stall {
            return Err(UsbError::InvalidState);
        }
        let i = self.next_bd();
        let iso = self.ep_type == EndpointType::Isochronous;
        let flags: u16 = BD_UOWN | ((if self.data01 { BD_DATA01 } else { 0u16 }) | (if iso { 0u16 } else { BD_DTS }) | (
        if stall { BD_STALL } else { 0u16 }));
        bdt.bd[i] = BufferDescriptor { flags, byte_count: len as u16 };
        self.stalled = stall;
        if !stall {
            self.next_odd = !self.next_odd;
            self.armed_ctr = self.armed_ctr + 1;
        }
        if !iso {
            self.data01 = !self.data01;
        }
        Ok(len)
    }

    /// Drop all armed and all completed transactions, and hand both
    /// descriptors back to software. Only valid while the peripheral's
    /// transaction engine is idle, as when a SETUP packet arrives.
    pub fn cancel(&mut self, bdt: &mut BufferDescriptorTable)
        requires
            old(self).wf(),
            old(bdt).wf(),
        ensures
            final(self).wf(),
            final(bdt).wf(),
            final(self).armed_ctr == 0,
            final(self).complete_ctr == 0,
            final(self).next_odd == spec_advance(old(self).next_odd, old(self).armed_ctr),
            final(self).next_complete_odd == spec_advance(
                old(self).next_complete_odd,
                old(self).complete_ctr,
            ),
            final(self).data01 == old(self).data01,
            final(self).stalled == old(self).stalled,
            final(self).ep_type == old(self).ep_type,
            final(self).ep_size == old(self).ep_size,
            final(self).bd == old(self).bd,
            final(self).buf_even@ == old(self).buf_even@,
            final(self).buf_odd@ == old(self).buf_odd@,
            final(bdt).bd@ == old(bdt).bd@.update(
                old(self).bd as int,
                BufferDescriptor { flags: 0, ..old(bdt).bd@[old(self).bd as int] },
            ).update(old(self).bd + 1, BufferDescriptor { flags: 0, ..old(bdt).bd@[old(self).bd + 1] }),
    {
        self.clear_completed();
        if self.armed_ctr % 2 == 1 {
            self.next_odd = !self.next_odd;
        }
        self.armed_ctr = 0;
        let b = self.bd;
        let mut d0 = bdt.bd[b];
        d0.set_flags(0);
        bdt.bd[b] = d0;
        let mut d1 = bdt.bd[b + 1];
        d1.set_flags(0);
        bdt.bd[b + 1] = d1;
    }

    /// Drop the completed transactions that software has not consumed.
    pub fn clear_completed(&mut self)
        requires
            old(self).wf(),
        ensures
            final(self).wf(),
            *final(self) == (EndpointControlBlock {
                complete_ctr: 0,
                next_complete_odd: spec_advance(old(self).next_complete_odd, old(self).complete_ctr),
                ..*old(self)
            }),
    {
        if self.complete_ctr % 2 == 1 {
            self.next_complete_odd = !self.next_complete_odd;
        }
        self.complete_ctr = 0;
    }
}

/// Copy `src` over the start of `dst`.
pub(crate) fn copy_into(dst: &mut Vec<u8>, src: &[u8])
    requires
        src@.len() <= old(dst)@.len(),
    ensures
        final(dst)@ == src@ + old(dst)@.subrange(src@.len() as int, old(dst)@.len() as int),
{
    let n = src.len();
    let mut i: usize = 0;
    while i < n
        invariant
            n == src@.len(),
            i <= n,
            n <= old(dst)@.len(),
            dst@.len() == old(dst)@.len(),
            forall|j: int| 0 <= j < i ==> #[trigger] dst@[j] == src@[j],
            forall|j: int| i <= j < dst@.len() ==> #[trigger] dst@[j] == old(dst)@[j],
        decreases n - i,
    {
        dst[i] = src[i];
        i = i + 1;
    }
    assert(dst@ =~= src@ + old(dst)@.subrange(n as int, old(dst)@.len() as int));
}

/// Copy the first `n` bytes of `src` over the start of `dst`.
fn copy_out(dst: &mut [u8], src: &Vec<u8>, n: usize)
    requires
        n <= old(dst)@.len(),
        n <= src@.len(),
    ensures
        final(dst)@ == src@.subrange(0, n as int) + old(dst)@.subrange(n as int, old(dst)@.len() as int),
{
    let mut i: usize = 0;
    while i < n
        invariant
            i <= n,
            n <= old(dst)@.len(),
            n <= src@.len(),
            dst@.len() == old(dst)@.len(),
            forall|j: int| 0 <= j < i ==> #[trigger] dst@[j] == src@[j],
            forall|j: int| i <= j < dst@.len() ==> #[trigger] dst@[j] == old(dst)@[j],
        decreases n - i,
    {
        dst[i] = src[i];
        i = i + 1;
    }
    assert(dst@ =~= src@.subrange(0, n as int) + old(dst)@.subrange(n as int, old(dst)@.len() as int));
}

impl EndpointControlBlock {
    /// Copy `buf` into the next free buffer and hand it to the peripheral.
    /// Fails with `WouldBlock` while that buffer is owned by the peripheral
    /// or both buffers are in use, and with `BufferOverflow` if `buf` is
    /// longer than the packet size.
    pub fn write(&mut self, bdt: &mut BufferDescriptorTable, buf: &[u8]) -> (r: Result<
        usize,
        UsbError,
    >)
        requires
            old(self).wf(),
            old(bdt).wf(),
        ensures
            final(self).wf(),
            final(bdt).wf(),
            old(self).write_post(old(bdt).bd@, buf@, r, *final(self), final(bdt).bd@),
    {
        if !self.can_arm(bdt) {
            return Err(UsbError::WouldBlock);
        }
        if buf.len() > self.ep_size as usize {
            return Err(UsbError::BufferOverflow);
        }
        if self.armed_ctr + self.complete_ctr >= 2 {
            return Err(UsbError::WouldBlock);
        }
        if self.next_odd {
            copy_into(&mut self.buf_odd, buf);
        } else {
            copy_into(&mut self.buf_even, buf);
        }
        self.arm_generic(bdt, buf.len(), false)
    }

    /// Copy the oldest completed transaction into `buf`, then hand a buffer
    /// back to the peripheral for further reception. Fails with `WouldBlock`
    /// if no completed transaction is queued, and with `BufferOverflow` if
    /// the transaction is longer than `buf` or than the packet size.
    pub fn read(&mut self, bdt: &mut BufferDescriptorTable, buf: &mut [u8]) -> (r: Result<
        usize,
        UsbError,
    >)
        requires
            old(self).wf(),
            old(bdt).wf(),
        ensures
            final(self).wf(),
            final(bdt).wf(),
            old(self).read_post(old(bdt).bd@, old(buf)@, r, *final(self), final(bdt).bd@, final(buf)@),
    {
        if self.complete_ctr == 0 {
            return Err(UsbError::WouldBlock);
        }
        let i = if self.next_complete_odd {
            self.bd + 1
        } else {
            self.bd
        };
        let n = bdt.bd[i].byte_count as usize;
        if n > buf.len() || n > self.ep_size as usize {
            return Err(UsbError::BufferOverflow);
        }
        if self.next_complete_odd {
            copy_out(buf, &self.buf_odd, n);
        } else {
            copy_out(buf, &self.buf_even, n);
        }
        self.complete_ctr = self.complete_ctr - 1;
        let size = self.ep_size as usize;
        let armed = self.arm_generic(bdt, size, false);
        assert(armed.is_ok());
        self.next_complete_odd = !self.next_complete_odd;
        Ok(n)
    }
}

} // verus!
