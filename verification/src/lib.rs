//! Verified register codec and transaction core for the TMC5160 stepper-motor
//! controller.
//!
//! The crate performs no input or output of its own. It builds the five-byte
//! datagrams of the chip's serial protocol, decodes the replies, and sequences
//! chip-select, enable-pin and transfer actions; the caller carries each
//! action out on its hardware and reports back what happened.

pub mod datagram;
pub mod driver;
pub mod protocol;
pub mod registers;
pub mod request;
pub mod sequencer;
pub mod units;
pub mod wire;

pub use datagram::{DataPacket, Datagram, Error};
pub use driver::{mode, Tmc5160};
pub use wire::swap_bytes;
