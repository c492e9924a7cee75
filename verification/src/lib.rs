//! Bluetooth HCI over USB for a two-core radio board.
//!
//! The application core presents a USB Bluetooth adapter to the host; the
//! network core runs the radio controller. The two exchange HCI packets through
//! a pair of ring buffers in shared memory. This crate is the verified core of
//! both programs: the ring buffers, the packet framing, the command table and
//! the decisions of every task. Peripherals, interrupts and executors stay
//! outside of it and hand it plain values.

pub mod app_core;
pub mod bridge;
pub mod command;
pub mod hci;
pub mod ipc;
pub mod layout;
pub mod led;
pub mod net_core;
pub mod queue;
pub mod ring;
pub mod usb_hci;
