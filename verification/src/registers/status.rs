//! The status byte that opens every reply of the chip.

use vstd::prelude::*;
use crate::registers::bits::{field, get_flag};

verus! {

/// The first byte of every reply: the chip's condition when the previous
/// datagram was executed.
#[derive(Clone, Copy, Debug, PartialEq, Eq, Structural)]
pub struct SpiStatus {
    /// The status byte as received.
    pub byte: u8,
}

impl SpiStatus {
    /// The status with `byte` as its content.
    pub open spec fn spec_from_byte(byte: u8) -> Self {
        SpiStatus { byte }
    }

    /// The content of the status.
    pub open spec fn spec_to_byte(&self) -> u8 {
        self.byte
    }

    /// Turning a status into its byte and back gives the same status, and turning
    /// a byte into a status and back gives the same byte.
    pub proof fn lemma_byte_round_trip(self, byte: u8)
        ensures
            Self::from_byte(self.to_byte()) == self,
            Self::from_byte(byte).to_byte() == byte,
    {
    }

    /// The status with every flag clear.
    pub fn new() -> (status: Self)
        ensures
            status.byte == 0,
    {
        SpiStatus { byte: 0 }
    }

    /// The status held by a received byte.
    #[verifier::when_used_as_spec(spec_from_byte)]
    pub fn from_byte(byte: u8) -> (status: Self)
        ensures
            status == Self::spec_from_byte(byte),
    {
        SpiStatus { byte }
    }

    /// The status byte.
    #[verifier::when_used_as_spec(spec_to_byte)]
    pub fn to_byte(&self) -> (byte: u8)
        ensures
            byte == self.byte,
    {
        self.byte
    }

    /// The status held by a one-byte array.
    pub fn from_bytes(bytes: [u8; 1]) -> (status: Self)
        ensures
            status.byte == bytes@[0],
    {
        SpiStatus { byte: bytes[0] }
    }

    /// The status as a one-byte array.
    pub fn into_bytes(self) -> (bytes: [u8; 1])
        ensures
            bytes@ == seq![self.byte],
    {
        let bytes: [u8; 1] = [self.byte];
        assert(bytes@ =~= seq![self.byte]);
        bytes
    }

    /// Bit 0: the chip has been reset since the reset flag was last cleared.
    pub fn reset_flag(&self) -> (flag: bool)
        ensures
            flag == (field(self.byte as u32, 0, 1) == 1),
    {
        get_flag(self.byte as u32, 0)
    }

    /// Bit 1: the driver has been shut down by an error.
    pub fn driver_error(&self) -> (flag: bool)
        ensures
            flag == (field(self.byte as u32, 1, 1) == 1),
    {
        get_flag(self.byte as u32, 1)
    }

    /// Bit 2: the stall detector is active.
    pub fn sg2(&self) -> (flag: bool)
        ensures
            flag == (field(self.byte as u32, 2, 1) == 1),
    {
        get_flag(self.byte as u32, 2)
    }

    /// Bit 3: the motor stands still.
    pub fn standstill(&self) -> (flag: bool)
        ensures
            flag == (field(self.byte as u32, 3, 1) == 1),
    {
        get_flag(self.byte as u32, 3)
    }

    /// Bit 4: the ramp runs at the target velocity.
    pub fn velocity_reached(&self) -> (flag: bool)
        ensures
            flag == (field(self.byte as u32, 4, 1) == 1),
    {
        get_flag(self.byte as u32, 4)
    }

    /// Bit 5: the ramp stands at the target position.
    pub fn position_reached(&self) -> (flag: bool)
        ensures
            flag == (field(self.byte as u32, 5, 1) == 1),
    {
        get_flag(self.byte as u32, 5)
    }

    /// Bit 6: the left reference switch is active.
    pub fn status_stop_l(&self) -> (flag: bool)
        ensures
            flag == (field(self.byte as u32, 6, 1) == 1),
    {
        get_flag(self.byte as u32, 6)
    }

    /// Bit 7: the right reference switch is active.
    pub fn status_stop_r(&self) -> (flag: bool)
        ensures
            flag == (field(self.byte as u32, 7, 1) == 1),
    {
        get_flag(self.byte as u32, 7)
    }
}

} // verus!
