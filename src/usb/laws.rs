use vstd::prelude::*;
use crate::usb::bdt::{BufferDescriptor, N_ENDPOINTS};
use crate::usb::bus::UsbBus;
use crate::usb::ecb::{spec_bd_index, EndpointControlBlock};
use crate::usb::poll::{spec_in_done, spec_out_done};
use crate::usb::types::{UsbDirection, UsbError};

verus! {

/// No endpoint direction ever has more transactions outstanding, armed or
/// completed but unread, than it has buffers.
pub proof fn lemma_outstanding_bounded(bus: &UsbBus, ep: nat, dir: UsbDirection)
    requires
        bus.wf(),
        ep < N_ENDPOINTS,
    ensures
        bus.block(ep, dir) is Some ==> bus.block(ep, dir)->Some_0.armed_ctr + bus.block(
            ep,
            dir,
        )->Some_0.complete_ctr <= 2,
{
    let s = 2 * ep + dir.spec_slot();
    assert(crate::usb::bus::slot_wf(bus.ecb@[s as int], s as int));
}

/// Once a write has taken the last free buffer, a second write of a packet
/// that fits, before any completion, is refused with `WouldBlock`.
pub proof fn lemma_second_write_blocks(
    e: EndpointControlBlock,
    bd: Seq<BufferDescriptor>,
    b1: Seq<u8>,
    e1: EndpointControlBlock,
    bd1: Seq<BufferDescriptor>,
    b2: Seq<u8>,
    r2: Result<usize, UsbError>,
    e2: EndpointControlBlock,
    bd2: Seq<BufferDescriptor>,
)
    requires
        e.wf(),
        e.armed_ctr + e.complete_ctr == 1,
        b2.len() <= e.ep_size,
        e.write_post(bd, b1, Ok::<usize, UsbError>(b1.len() as usize), e1, bd1),
        e1.write_post(bd1, b2, r2, e2, bd2),
    ensures
        r2 == Err::<usize, UsbError>(UsbError::WouldBlock),
        e2 == e1,
{
}

/// A write refused with `WouldBlock` changes nothing, so retrying a packet
/// that fits, with no completion in between, is refused again.
pub proof fn lemma_blocked_write_stays_blocked(
    e: EndpointControlBlock,
    bd: Seq<BufferDescriptor>,
    b1: Seq<u8>,
    e1: EndpointControlBlock,
    bd1: Seq<BufferDescriptor>,
    b2: Seq<u8>,
    r2: Result<usize, UsbError>,
    e2: EndpointControlBlock,
    bd2: Seq<BufferDescriptor>,
)
    requires
        e.wf(),
        b2.len() <= e.ep_size,
        e.write_post(bd, b1, Err::<usize, UsbError>(UsbError::WouldBlock), e1, bd1),
        e1.write_post(bd1, b2, r2, e2, bd2),
    ensures
        r2 == Err::<usize, UsbError>(UsbError::WouldBlock),
        e2 == e,
        bd2 == bd,
{
}

/// After a completed IN transaction frees a buffer of a full endpoint, a
/// write that fits the packet size succeeds again.
pub proof fn lemma_write_after_completion(
    e: EndpointControlBlock,
    e1: EndpointControlBlock,
    bd: Seq<BufferDescriptor>,
    b: Seq<u8>,
    r: Result<usize, UsbError>,
    e2: EndpointControlBlock,
    bd2: Seq<BufferDescriptor>,
)
    requires
        e.wf(),
        e.armed_ctr + e.complete_ctr == 2,
        e.armed_ctr > 0,
        spec_in_done(e, e1),
        !bd[spec_bd_index(e1.bd, e1.next_odd)].hw_owned(),
        b.len() <= e.ep_size,
        e1.write_post(bd, b, r, e2, bd2),
    ensures
        r == Ok::<usize, UsbError>(b.len() as usize),
{
}

/// One completed OUT transaction allows exactly one successful read, which
/// returns its byte count and hands a buffer back to the peripheral.
pub proof fn lemma_one_completion_one_read(
    e: EndpointControlBlock,
    e1: EndpointControlBlock,
    bd: Seq<BufferDescriptor>,
    buf: Seq<u8>,
    r: Result<usize, UsbError>,
    e2: EndpointControlBlock,
    bd2: Seq<BufferDescriptor>,
    buf2: Seq<u8>,
    r3: Result<usize, UsbError>,
    e3: EndpointControlBlock,
    bd3: Seq<BufferDescriptor>,
    buf3: Seq<u8>,
)
    requires
        e.wf(),
        e.complete_ctr == 0,
        e.armed_ctr > 0,
        spec_out_done(e, e1),
        bd[spec_bd_index(e1.bd, e1.next_complete_odd)].byte_count <= buf.len(),
        bd[spec_bd_index(e1.bd, e1.next_complete_odd)].byte_count <= e1.ep_size,
        e1.read_post(bd, buf, r, e2, bd2, buf2),
        e2.read_post(bd2, buf2, r3, e3, bd3, buf3),
    ensures
        r == Ok::<usize, UsbError>(bd[spec_bd_index(e1.bd, e1.next_complete_odd)].byte_count as usize),
        e2.armed_ctr == e.armed_ctr,
        e2.complete_ctr == 0,
        r3 == Err::<usize, UsbError>(UsbError::WouldBlock),
{
}

/// A successful read hands back exactly the bytes that the peripheral stored
/// for the completed transaction.
pub proof fn lemma_read_returns_stored_bytes(
    e: EndpointControlBlock,
    bd: Seq<BufferDescriptor>,
    buf: Seq<u8>,
    data: Seq<u8>,
    r: Result<usize, UsbError>,
    e2: EndpointControlBlock,
    bd2: Seq<BufferDescriptor>,
    buf2: Seq<u8>,
)
    requires
        e.wf(),
        e.complete_ctr > 0,
        data.len() <= e.ep_size,
        bd[spec_bd_index(e.bd, e.next_complete_odd)].byte_count == data.len(),
        e.buf(e.next_complete_odd).subrange(0, data.len() as int) == data,
        data.len() <= buf.len(),
        e.read_post(bd, buf, r, e2, bd2, buf2),
    ensures
        r == Ok::<usize, UsbError>(data.len() as usize),
        buf2.subrange(0, data.len() as int) == data,
{
    assert(buf2.subrange(0, data.len() as int) =~= data);
}

} // verus!
