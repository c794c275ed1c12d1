//! The five-byte datagram of the chip's serial protocol.
//!
//! Every exchange with the chip sends five bytes and receives five bytes at
//! the same time. The first byte sent is a register address, with its top bit
//! set when the register is to be written; the other four are a data word,
//! most significant byte first. The first byte received is the chip's status,
//! the other four are the content of a register.

use vstd::prelude::*;
use crate::registers::SpiStatus;
use crate::wire::{be_bytes, be_value, from_be_bytes, lemma_be_joined, to_be_bytes};

verus! {

/// Why an operation on the chip failed.
#[derive(Debug, PartialEq, Eq)]
pub enum Error<E> {
    /// The bus reported an error during a transfer.
    Spi(E),
    /// The chip-select pin or the enable pin could not be driven.
    PinError,
}

/// A datagram to send: the address byte as it goes over the bus, and the data
/// word.
#[derive(Clone, Copy, Debug, PartialEq, Eq, Structural)]
pub struct Datagram {
    /// The first byte sent: the register address, with the top bit set for a
    /// write.
    pub address: u8,
    /// The data word; zero in a read request.
    pub data: u32,
}

impl Datagram {
    /// The request to read the register at `addr`: the address with its top bit
    /// clear, and a zero data word.
    pub open spec fn spec_read(addr: u8) -> Datagram {
        Datagram { address: addr & 0x7F, data: 0 }
    }

    /// The request to write `data` to the register at `addr`: the address with
    /// its top bit set, and the data word.
    pub open spec fn spec_write(addr: u8, data: u32) -> Datagram {
        Datagram { address: addr | 0x80, data }
    }

    /// The five bytes that go over the bus: the address byte, then the data
    /// word, most significant byte first.
    pub open spec fn bytes(self) -> Seq<u8> {
        seq![self.address] + be_bytes(self.data)
    }

    /// The five bytes that go over the bus, as an array.
    pub open spec fn spec_to_bytes(&self) -> [u8; 5] {
        [
            self.address,
            (self.data / 0x100_0000) as u8,
            (self.data / 0x1_0000 % 0x100) as u8,
            (self.data / 0x100 % 0x100) as u8,
            (self.data % 0x100) as u8,
        ]
    }

    /// The array form and the sequence form of a datagram hold the same bytes.
    pub proof fn lemma_bytes(self)
        ensures
            self.spec_to_bytes()@ == self.bytes(),
    {
        assert(self.spec_to_bytes()@ =~= self.bytes());
    }

    /// An address below 0x80 is sent unchanged in a read request, and with 0x80
    /// added in a write request.
    pub proof fn lemma_address_byte(addr: u8, data: u32)
        requires
            addr <= 0x7F,
        ensures
            Self::spec_read(addr).address == addr,
            Self::spec_write(addr, data).address == addr + 0x80,
    {
        assert(addr & 0x7F == addr && addr | 0x80 == addr + 0x80) by (bit_vector)
            requires
                addr <= 0x7F,
        ;
    }

    /// The request to read the register at `addr`.
    #[verifier::when_used_as_spec(spec_read)]
    pub fn read(addr: u8) -> (datagram: Datagram)
        ensures
            datagram == Self::spec_read(addr),
    {
        Datagram { address: addr & 0x7F, data: 0 }
    }

    /// The request to write `data` to the register at `addr`.
    #[verifier::when_used_as_spec(spec_write)]
    pub fn write(addr: u8, data: u32) -> (datagram: Datagram)
        ensures
            datagram == Self::spec_write(addr, data),
    {
        Datagram { address: addr | 0x80, data }
    }

    /// The five bytes to put on the bus.
    #[verifier::when_used_as_spec(spec_to_bytes)]
    pub fn to_bytes(&self) -> (frame: [u8; 5])
        ensures
            frame == self.spec_to_bytes(),
            frame@ == self.bytes(),
    {
        let data = to_be_bytes(self.data);
        let frame: [u8; 5] = [self.address, data[0], data[1], data[2], data[3]];
        assert(frame =~= self.spec_to_bytes());
        assert(frame@ =~= self.bytes());
        frame
    }
}

/// The sixteen hexadecimal digits, lower case.
pub open spec fn hex_digit(value: int) -> char
    recommends
        0 <= value < 16,
{
    seq!['0', '1', '2', '3', '4', '5', '6', '7', '8', '9', 'a', 'b', 'c', 'd', 'e', 'f'][value]
}

/// A number in hexadecimal: lower-case digits, the most significant first, no
/// leading zeros, and a single `0` for zero.
pub open spec fn lower_hex(value: nat) -> Seq<char>
    decreases value,
{
    if value < 16 {
        seq![hex_digit(value as int)]
    } else {
        lower_hex(value / 16).push(hex_digit((value % 16) as int))
    }
}

/// Formats a status byte and a data word with `format!`, each in the `{:x}`
/// form behind the prefix `0x`, with a colon between them. The contract says
/// what the standard library documents of that form: the number in base 16
/// with lower-case letters, without padding or sign.
#[verifier::external_body]
fn format_packet(status: u8, data: u32) -> (text: String)
    ensures
        text@ == seq!['0', 'x'] + lower_hex(status as nat) + seq![':', '0', 'x'] + lower_hex(
            data as nat,
        ),
{
    format!("0x{:x}:0x{:x}", status, data)
}

/// What one exchange with the chip has brought.
#[derive(Clone, Copy, Debug, PartialEq, Eq)]
pub struct DataPacket {
    /// The chip's status as of the previous exchange.
    pub status: SpiStatus,
    /// The data word received.
    pub data: u32,
    /// Five bytes kept for diagnosis: the frame sent for a write, the frame
    /// received for a read.
    pub debug: [u8; 5],
}

impl DataPacket {
    /// The packet that a received frame holds: the first byte is the status, the
    /// other four are the data word, most significant byte first.
    pub open spec fn spec_decode(reply: [u8; 5], debug: [u8; 5]) -> DataPacket {
        DataPacket {
            status: SpiStatus { byte: reply[0] },
            data: (reply[1] * 0x100_0000 + reply[2] * 0x1_0000 + reply[3] * 0x100 + reply[4]) as u32,
            debug,
        }
    }

    /// The data word of a decoded frame is the value of its last four bytes.
    pub proof fn lemma_decoded_data(reply: [u8; 5], debug: [u8; 5])
        ensures
            Self::spec_decode(reply, debug).data == be_value(reply@.subrange(1, 5)),
            be_bytes(Self::spec_decode(reply, debug).data) == reply@.subrange(1, 5),
    {
        lemma_be_joined(reply[1], reply[2], reply[3], reply[4]);
        assert(reply@.subrange(1, 5) =~= seq![reply[1], reply[2], reply[3], reply[4]]);
    }

    /// The packet as text: the status byte and the data word in hexadecimal,
    /// each behind `0x`, with a colon between them.
    pub open spec fn text(self) -> Seq<char> {
        seq!['0', 'x'] + lower_hex(self.status.byte as nat) + seq![':', '0', 'x'] + lower_hex(
            self.data as nat,
        )
    }

    /// Writes the packet out as text, such as `0x8:0x2a`.
    pub fn to_text(&self) -> (text: String)
        ensures
            text@ == self.text(),
    {
        format_packet(self.status.to_byte(), self.data)
    }

    /// Decodes a received frame, keeping `debug` for diagnosis.
    #[verifier::when_used_as_spec(spec_decode)]
    pub fn decode(reply: [u8; 5], debug: [u8; 5]) -> (packet: DataPacket)
        ensures
            packet == Self::spec_decode(reply, debug),
    {
        let data = from_be_bytes([reply[1], reply[2], reply[3], reply[4]]);
        DataPacket { status: SpiStatus::from_byte(reply[0]), data, debug }
    }
}

} // verus!
