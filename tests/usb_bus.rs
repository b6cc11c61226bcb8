use pic32_hal::mcu::PhysicalAddress;
use pic32_hal::usb::bdt::{BufferDescriptorTable, USB_PID_OUT, USB_PID_SETUP};
use pic32_hal::usb::bus::UsbBus;
use pic32_hal::usb::ecb::EndpointControlBlock;
use pic32_hal::usb::regs::{UsbRegs, U1CON_PKTDIS_TOKBUSY, U1IR_URSTIF};
use pic32_hal::usb::types::{EndpointAddress, EndpointType, PollResult, UsbDirection, UsbError};

fn new_bus() -> UsbBus {
    UsbBus::new(UsbRegs::new(), PhysicalAddress::from_usize(0x0001_2200))
}

fn ep_out(i: usize) -> EndpointAddress {
    EndpointAddress::from_parts(i, UsbDirection::Out)
}

fn ep_in(i: usize) -> EndpointAddress {
    EndpointAddress::from_parts(i, UsbDirection::In)
}

fn counters(bus: &UsbBus, slot: usize) -> (u8, u8) {
    let e = bus.ecb[slot].as_ref().unwrap();
    (e.armed_ctr, e.complete_ctr)
}

#[test]
fn endpoint_address_parts() {
    let a = ep_in(3);
    assert_eq!(a.to_byte(), 0x83);
    assert_eq!(a.index(), 3);
    assert!(a.is_in());
    assert_eq!(a.direction(), UsbDirection::In);
    let b = ep_out(5);
    assert_eq!(b.to_byte(), 0x05);
    assert!(b.is_out());
}

#[test]
fn new_programs_descriptor_table_address() {
    let bus = new_bus();
    assert_eq!(bus.usb.u1bdtp3, 0x00);
    assert_eq!(bus.usb.u1bdtp2, 0x01);
    assert_eq!(bus.usb.u1bdtp1, 0x0122);
    assert_eq!(bus.usb.u1pwrc, 1);
    assert!(bus.usb.u1ep.iter().all(|&r| r == 0));
}

#[test]
fn second_write_blocks_until_completion() {
    let mut bus = new_bus();
    let a = bus.alloc_ep(UsbDirection::In, Some(ep_in(1)), EndpointType::Bulk, 8, 0).unwrap();
    assert_eq!(bus.write(a, &[1, 2, 3]), Ok(3));
    assert_eq!(bus.write(a, &[4, 5]), Ok(2));
    assert_eq!(counters(&bus, 3), (2, 0));
    assert_eq!(bus.write(a, &[6]), Err(UsbError::WouldBlock));
    assert_eq!(bus.host_receive(1), Some(vec![1, 2, 3]));
    assert_eq!(
        bus.poll(),
        PollResult::Data { ep_out: 0, ep_in_complete: 0b10, ep_setup: 0 }
    );
    assert_eq!(counters(&bus, 3), (1, 0));
    assert_eq!(bus.write(a, &[6]), Ok(1));
    assert_eq!(bus.host_receive(1), Some(vec![4, 5]));
    assert_eq!(bus.host_receive(1), Some(vec![6]));
}

#[test]
fn read_needs_a_completion_and_rearms() {
    let mut bus = new_bus();
    let a = bus.alloc_ep(UsbDirection::Out, Some(ep_out(2)), EndpointType::Interrupt, 16, 1).unwrap();
    assert_eq!(counters(&bus, 4), (1, 0));
    let mut buf = [0u8; 16];
    assert_eq!(bus.read(a, &mut buf), Err(UsbError::WouldBlock));
    assert!(bus.host_send(2, USB_PID_OUT, &[9, 8, 7, 6, 5]));
    assert_eq!(
        bus.poll(),
        PollResult::Data { ep_out: 0b100, ep_in_complete: 0, ep_setup: 0 }
    );
    assert_eq!(counters(&bus, 4), (0, 1));
    assert_eq!(bus.read(a, &mut buf), Ok(5));
    assert_eq!(&buf[..5], &[9, 8, 7, 6, 5]);
    assert_eq!(counters(&bus, 4), (1, 0));
    assert_eq!(bus.read(a, &mut buf), Err(UsbError::WouldBlock));
    assert_eq!(bus.pr_out, 0);
    // the re-armed buffer takes the next packet
    assert!(bus.host_send(2, USB_PID_OUT, &[1]));
}

#[test]
fn out_round_trip_keeps_bytes() {
    let mut bus = new_bus();
    let a = bus.alloc_ep(UsbDirection::Out, None, EndpointType::Bulk, 64, 0).unwrap();
    assert_eq!(a.index(), 1);
    let data: Vec<u8> = (0..64u8).map(|x| x.wrapping_mul(37)).collect();
    for _ in 0..3 {
        assert!(bus.host_send(1, USB_PID_OUT, &data));
        bus.poll();
        let mut buf = [0u8; 64];
        assert_eq!(bus.read(a, &mut buf), Ok(64));
        assert_eq!(&buf[..], &data[..]);
    }
}

#[test]
fn in_round_trip_keeps_bytes() {
    let mut bus = new_bus();
    let a = bus.alloc_ep(UsbDirection::In, None, EndpointType::Bulk, 32, 0).unwrap();
    let data: Vec<u8> = (0..32u8).rev().collect();
    assert_eq!(bus.write(a, &data), Ok(32));
    assert_eq!(bus.host_receive(1), Some(data));
}

#[test]
fn read_into_short_buffer_overflows() {
    let mut bus = new_bus();
    let a = bus.alloc_ep(UsbDirection::Out, Some(ep_out(1)), EndpointType::Bulk, 8, 0).unwrap();
    assert!(bus.host_send(1, USB_PID_OUT, &[1, 2, 3, 4]));
    bus.poll();
    let mut small = [0u8; 3];
    assert_eq!(bus.read(a, &mut small), Err(UsbError::BufferOverflow));
    assert_eq!(small, [0, 0, 0]);
    let mut buf = [0u8; 8];
    assert_eq!(bus.read(a, &mut buf), Ok(4));
}

#[test]
fn write_longer_than_packet_overflows() {
    let mut bus = new_bus();
    let a = bus.alloc_ep(UsbDirection::In, Some(ep_in(1)), EndpointType::Bulk, 8, 0).unwrap();
    assert_eq!(bus.write(a, &[0u8; 9]), Err(UsbError::BufferOverflow));
    assert_eq!(counters(&bus, 3), (0, 0));
    assert_eq!(bus.write(a, &[0u8; 8]), Ok(8));
}

#[test]
fn arm_beyond_packet_size_has_no_effect() {
    let mut bdt = BufferDescriptorTable::new();
    let mut e = EndpointControlBlock::allocate(8, EndpointType::Bulk, 6, &mut bdt);
    assert_eq!(e.arm_generic(&mut bdt, 9, false), Err(UsbError::BufferOverflow));
    assert_eq!((e.armed_ctr, e.complete_ctr, e.data01, e.next_odd), (0, 0, false, false));
    assert_eq!(bdt.bd[6].flags, 0);
    assert_eq!(e.arm_generic(&mut bdt, 8, false), Ok(8));
    assert_eq!((e.armed_ctr, e.data01, e.next_odd), (1, true, true));
    assert_eq!(bdt.bd[6].flags, 0x80 | 0x08);
    assert_eq!(bdt.bd[6].byte_count, 8);
}

#[test]
fn isochronous_arm_keeps_toggle() {
    let mut bdt = BufferDescriptorTable::new();
    let mut e = EndpointControlBlock::allocate(8, EndpointType::Isochronous, 2, &mut bdt);
    assert_eq!(e.arm_generic(&mut bdt, 4, false), Ok(4));
    assert!(!e.data01);
    assert_eq!(bdt.bd[2].flags, 0x80);
}

#[test]
fn stall_twice_is_invalid_state() {
    let mut bdt = BufferDescriptorTable::new();
    let mut e = EndpointControlBlock::allocate(8, EndpointType::Control, 0, &mut bdt);
    assert_eq!(e.arm_generic(&mut bdt, 0, true), Ok(0));
    assert!(e.stalled);
    assert_eq!(bdt.bd[0].flags & 0x04, 0x04);
    assert_eq!(e.arm_generic(&mut bdt, 0, true), Err(UsbError::InvalidState));
    assert_eq!(e.arm_generic(&mut bdt, 0, false), Ok(0));
    assert!(!e.stalled);
}

#[test]
fn setup_cancels_pending_in() {
    let mut bus = new_bus();
    let o = bus.alloc_ep(UsbDirection::Out, Some(ep_out(0)), EndpointType::Control, 8, 0).unwrap();
    let i = bus.alloc_ep(UsbDirection::In, Some(ep_in(0)), EndpointType::Control, 8, 0).unwrap();
    assert_eq!(bus.write(i, &[1, 2]), Ok(2));
    assert_eq!(counters(&bus, 1), (1, 0));
    assert!(bus.host_send(0, USB_PID_SETUP, &[0x80, 6, 0, 1, 0, 0, 64, 0]));
    assert_eq!(bus.usb.u1con & U1CON_PKTDIS_TOKBUSY, U1CON_PKTDIS_TOKBUSY);
    bus.poll();
    assert_eq!(counters(&bus, 1), (0, 0));
    assert!(bus.ecb[1].as_ref().unwrap().data01);
    assert!(bus.ecb[0].as_ref().unwrap().data01);
    assert_eq!(bus.bdt.bd[2].flags & 0x80, 0);
    assert_eq!(bus.bdt.bd[3].flags & 0x80, 0);
    assert_eq!(bus.usb.u1con & U1CON_PKTDIS_TOKBUSY, 0);
    let mut buf = [0u8; 8];
    assert_eq!(bus.read(o, &mut buf), Ok(8));
}

#[test]
fn alloc_explicit_address_in_use() {
    let mut bus = new_bus();
    assert_eq!(bus.alloc_ep(UsbDirection::In, Some(ep_in(2)), EndpointType::Bulk, 8, 0), Ok(ep_in(2)));
    assert_eq!(
        bus.alloc_ep(UsbDirection::In, Some(ep_in(2)), EndpointType::Bulk, 8, 0),
        Err(UsbError::InvalidEndpoint)
    );
    // the other direction of the same endpoint is free
    assert_eq!(bus.alloc_ep(UsbDirection::Out, Some(ep_out(2)), EndpointType::Bulk, 8, 0), Ok(ep_out(2)));
}

#[test]
fn alloc_direction_mismatch_and_range() {
    let mut bus = new_bus();
    assert_eq!(
        bus.alloc_ep(UsbDirection::Out, Some(ep_in(1)), EndpointType::Bulk, 8, 0),
        Err(UsbError::InvalidEndpoint)
    );
    assert_eq!(
        bus.alloc_ep(UsbDirection::In, Some(ep_in(16)), EndpointType::Bulk, 8, 0),
        Err(UsbError::EndpointOverflow)
    );
}

#[test]
fn alloc_automatic_skips_zero_and_fills_up() {
    let mut bus = new_bus();
    for k in 1..16 {
        let a = bus.alloc_ep(UsbDirection::In, None, EndpointType::Interrupt, 8, 10).unwrap();
        assert_eq!(a.index(), k);
        assert!(a.is_in());
    }
    assert_eq!(
        bus.alloc_ep(UsbDirection::In, None, EndpointType::Interrupt, 8, 10),
        Err(UsbError::EndpointOverflow)
    );
    // endpoint 0 stays free for control transfers
    assert!(bus.ecb[1].is_none());
    let a = bus.alloc_ep(UsbDirection::Out, None, EndpointType::Bulk, 8, 0).unwrap();
    assert_eq!(a.index(), 1);
}

#[test]
fn alloc_sets_endpoint_control_register() {
    let mut bus = new_bus();
    bus.alloc_ep(UsbDirection::Out, Some(ep_out(0)), EndpointType::Control, 8, 0).unwrap();
    bus.alloc_ep(UsbDirection::In, Some(ep_in(0)), EndpointType::Control, 8, 0).unwrap();
    assert_eq!(bus.usb.u1ep[0], 0x08 | 0x04 | 0x01);
    bus.alloc_ep(UsbDirection::In, Some(ep_in(3)), EndpointType::Isochronous, 8, 1).unwrap();
    assert_eq!(bus.usb.u1ep[3], 0x04 | 0x10);
    bus.alloc_ep(UsbDirection::Out, Some(ep_out(4)), EndpointType::Bulk, 8, 0).unwrap();
    assert_eq!(bus.usb.u1ep[4], 0x08 | 0x10 | 0x01);
}

#[test]
fn unallocated_or_wrong_direction_is_invalid() {
    let mut bus = new_bus();
    let mut buf = [0u8; 8];
    assert_eq!(bus.write(ep_in(1), &[1]), Err(UsbError::InvalidEndpoint));
    assert_eq!(bus.read(ep_out(1), &mut buf), Err(UsbError::InvalidEndpoint));
    assert_eq!(bus.read(ep_in(1), &mut buf), Err(UsbError::InvalidEndpoint));
    assert_eq!(bus.write(EndpointAddress::from_byte(0x91), &[1]), Err(UsbError::InvalidEndpoint));
}

#[test]
fn control_transfer_end_to_end() {
    let mut bus = new_bus();
    let o = bus.alloc_ep(UsbDirection::Out, Some(ep_out(0)), EndpointType::Control, 8, 0).unwrap();
    let i = bus.alloc_ep(UsbDirection::In, Some(ep_in(0)), EndpointType::Control, 8, 0).unwrap();
    assert_eq!(counters(&bus, 0), (1, 0));
    bus.enable();
    assert_eq!(bus.usb.u1con, 1);
    let setup = [0x80u8, 0x06, 0x00, 0x01, 0x00, 0x00, 0x12, 0x00];
    assert!(bus.host_send(0, USB_PID_SETUP, &setup));
    assert_eq!(bus.poll(), PollResult::Data { ep_out: 0, ep_in_complete: 0, ep_setup: 0b1 });
    let mut buf = [0u8; 8];
    assert_eq!(bus.read(o, &mut buf), Ok(8));
    assert_eq!(buf, setup);
    let response = [0x12u8, 0x01, 0x00, 0x02, 0x00, 0x00, 0x00, 0x08];
    assert_eq!(bus.write(i, &response), Ok(8));
    assert_eq!(bus.host_receive(0), Some(response.to_vec()));
    match bus.poll() {
        PollResult::Data { ep_in_complete, .. } => assert_eq!(ep_in_complete & 1, 1),
        other => panic!("unexpected poll result {:?}", other),
    }
    assert_eq!(bus.poll(), PollResult::NoEvent);
}

#[test]
fn bus_reset_is_reported_and_clears_address() {
    let mut bus = new_bus();
    bus.set_device_address(0xc5);
    assert_eq!(bus.usb.u1addr, 0x45);
    bus.host_reset();
    assert_eq!(bus.poll(), PollResult::Reset);
    assert_eq!(bus.usb.u1addr, 0);
    assert_eq!(bus.usb.u1ir & U1IR_URSTIF, 0);
    assert_eq!(bus.poll(), PollResult::NoEvent);
}

#[test]
fn reset_drops_unread_control_data() {
    let mut bus = new_bus();
    let o = bus.alloc_ep(UsbDirection::Out, Some(ep_out(0)), EndpointType::Control, 8, 0).unwrap();
    assert!(bus.host_send(0, USB_PID_OUT, &[1, 2]));
    bus.poll();
    assert_eq!(counters(&bus, 0), (0, 1));
    bus.reset();
    assert_eq!(counters(&bus, 0), (0, 0));
    let mut buf = [0u8; 8];
    assert_eq!(bus.read(o, &mut buf), Err(UsbError::WouldBlock));
}

#[test]
fn stall_sets_register_bit_and_stall_flag_clears_it() {
    let mut bus = new_bus();
    bus.alloc_ep(UsbDirection::In, Some(ep_in(0)), EndpointType::Control, 8, 0).unwrap();
    bus.set_stalled(ep_in(0), true);
    assert_eq!(bus.usb.u1ep[0] & 0x02, 0x02);
    assert!(!bus.is_stalled(ep_in(0)));
    bus.set_stalled(ep_in(0), false);
    assert_eq!(bus.usb.u1ep[0] & 0x02, 0x02);
    bus.usb.u1ir |= 0x80;
    bus.poll();
    assert_eq!(bus.usb.u1ep[0] & 0x02, 0);
    assert_eq!(bus.usb.u1ir & 0x80, 0);
}

#[test]
fn error_flags_are_cleared_by_poll() {
    let mut bus = new_bus();
    bus.usb.u1eir = 0x15;
    assert_eq!(bus.poll(), PollResult::NoEvent);
    assert_eq!(bus.usb.u1eir, 0);
}

#[test]
fn unarmed_endpoint_does_not_accept_packets() {
    let mut bus = new_bus();
    bus.alloc_ep(UsbDirection::In, Some(ep_in(1)), EndpointType::Bulk, 8, 0).unwrap();
    assert_eq!(bus.host_receive(1), None);
    assert!(!bus.host_send(3, USB_PID_OUT, &[1]));
    assert_eq!(bus.poll(), PollResult::NoEvent);
}

#[test]
fn packets_wait_until_poll_reenables_them() {
    let mut bus = new_bus();
    bus.alloc_ep(UsbDirection::Out, Some(ep_out(0)), EndpointType::Control, 8, 0).unwrap();
    let i = bus.alloc_ep(UsbDirection::In, Some(ep_in(0)), EndpointType::Control, 8, 0).unwrap();
    assert!(bus.host_send(0, USB_PID_SETUP, &[0, 5, 1, 0, 0, 0, 0, 0]));
    assert_eq!(bus.write(i, &[]), Ok(0));
    assert_eq!(bus.host_receive(0), None);
    assert!(!bus.host_send(0, USB_PID_OUT, &[1]));
    bus.poll();
    // the SETUP cancelled the queued reply
    assert_eq!(bus.host_receive(0), None);
    assert_eq!(bus.write(i, &[]), Ok(0));
    assert_eq!(bus.host_receive(0), Some(vec![]));
}
