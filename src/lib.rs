//! Hardware support for PIC32 (MIPS) microcontrollers.
//!
//! The core is the full-speed USB device driver in `usb`. It works on a model
//! of the peripheral: an image of its register file and of its buffer
//! descriptor table, kept as ordinary values. On it the driver runs the
//! descriptor ownership protocol, a ping-pong pipeline of two buffers per
//! endpoint direction, and the reconciliation of completed transactions in
//! `UsbBus::poll`. Exchanging the image with the real peripheral happens
//! outside this library; the peripheral's own side of the protocol is
//! modelled in `usb::sie`. Around it stand the configuration word builders
//! (`config`), address translation (`mcu`), the scheduling of the CP0 timer,
//! the arithmetic and register field values of the other peripherals
//! (`hal`), and the decisions of the heap's growth (`heap`).

pub mod config;
pub mod hal;
pub mod heap;
pub mod mcu;
pub mod sysconfig;
pub mod tinylog;
pub mod usb;
