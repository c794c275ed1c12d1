//! The operations of the driver, what each sends, and what it answers.

use vstd::prelude::*;
use crate::datagram::{DataPacket, Datagram};
use crate::registers::bits::field;
use crate::registers::{Address, DrvStatus, EncStatus, GConf, GStat, RampStat, Registers};
use crate::sequencer::{Level, Script};
use crate::units::{decode_velocity, signed, to_signed, velocity, MotorContext};

verus! {

/// What is made of the packet that a register read brings.
#[derive(Clone, Copy, Debug, PartialEq, Eq, Structural)]
pub enum Decode {
    /// The packet itself.
    Packet,
    /// The data word.
    Word,
    /// The data word as a position.
    Position,
    /// The data word as a velocity.
    Velocity,
    /// The global configuration flags.
    GConf,
    /// The global status flags.
    GStat,
    /// The driver status.
    DrvStatus,
    /// The ramp status.
    RampStat,
    /// The encoder status.
    EncStatus,
    /// Whether the standstill flag of the driver status is clear.
    Moving,
    /// The position-reached flag of the ramp status.
    PositionReached,
    /// The velocity-reached flag of the ramp status.
    VelocityReached,
    /// The flag of the right reference switch in the ramp status.
    LimitRight,
    /// The flag of the left reference switch in the ramp status.
    LimitLeft,
}

/// The answer of a finished operation.
#[derive(Clone, Copy, Debug, PartialEq, Eq)]
pub enum Reply {
    /// Nothing but success.
    Unit,
    /// The packet of the last exchange.
    Packet(DataPacket),
    /// A data word.
    Word(u32),
    /// A position: in microsteps as it was read, and converted into full steps.
    Position {
        /// The position in microsteps.
        steps: i32,
        /// The position in full steps.
        position: i32,
    },
    /// A velocity: in the chip's unit as it was decoded, and converted into full
    /// steps per second.
    Velocity {
        /// The velocity in the chip's unit.
        ticks: i32,
        /// The velocity in full steps per second.
        speed_hz: i64,
    },
    /// The global configuration flags.
    GConf(GConf),
    /// The global status flags.
    GStat(GStat),
    /// The driver status.
    DrvStatus(DrvStatus),
    /// The ramp status.
    RampStat(RampStat),
    /// The encoder status.
    EncStatus(EncStatus),
    /// A single condition.
    Flag(bool),
    /// The five bytes last received.
    Frame([u8; 5]),
    /// The status byte last received.
    StatusByte(u8),
}

impl Decode {
    /// Whether the status byte of the packet is kept in the driver.
    pub open spec fn spec_keeps_status(&self) -> bool {
        !(*self == Decode::Packet || *self == Decode::Word || *self == Decode::Position || *self
            == Decode::Velocity)
    }

    /// The answer that a packet gives. Positions and velocities are converted
    /// into physical units by the clock and the microstep resolution of
    /// `context`.
    pub open spec fn spec_apply(&self, packet: DataPacket, context: MotorContext) -> Reply {
        match *self {
            Decode::Packet => Reply::Packet(packet),
            Decode::Word => Reply::Word(packet.data),
            Decode::Position => Reply::Position {
                steps: signed(packet.data) as i32,
                position: context.steps_to_position(signed(packet.data) as i32),
            },
            Decode::Velocity => Reply::Velocity {
                ticks: velocity(packet.data) as i32,
                speed_hz: context.ticks_to_speed(velocity(packet.data) as i64),
            },
            Decode::GConf => Reply::GConf(GConf { word: packet.data }),
            Decode::GStat => Reply::GStat(GStat { word: packet.data }),
            Decode::DrvStatus => Reply::DrvStatus(DrvStatus { word: packet.data }),
            Decode::RampStat => Reply::RampStat(RampStat { word: packet.data }),
            Decode::EncStatus => Reply::EncStatus(EncStatus { word: packet.data }),
            Decode::Moving => Reply::Flag(field(packet.data, 31, 1) != 1),
            Decode::PositionReached => Reply::Flag(field(packet.data, 9, 1) == 1),
            Decode::VelocityReached => Reply::Flag(field(packet.data, 8, 1) == 1),
            Decode::LimitRight => Reply::Flag(field(packet.data, 1, 1) == 1),
            Decode::LimitLeft => Reply::Flag(field(packet.data, 0, 1) == 1),
        }
    }

    /// Whether the status byte of the packet is kept in the driver.
    #[verifier::when_used_as_spec(spec_keeps_status)]
    pub fn keeps_status(&self) -> (keeps: bool)
        ensures
            keeps == self.spec_keeps_status(),
    {
        match *self {
            Decode::Packet | Decode::Word | Decode::Position | Decode::Velocity => false,
            _ => true,
        }
    }

    /// Makes the answer out of a packet.
    #[verifier::when_used_as_spec(spec_apply)]
    pub fn apply(&self, packet: DataPacket, context: MotorContext) -> (reply: Reply)
        ensures
            reply == self.spec_apply(packet, context),
    {
        match *self {
            Decode::Packet => Reply::Packet(packet),
            Decode::Word => Reply::Word(packet.data),
            Decode::Position => {
                let steps = to_signed(packet.data);
                Reply::Position { steps, position: context.steps_to_position(steps) }
            },
            Decode::Velocity => {
                let ticks = decode_velocity(packet.data);
                Reply::Velocity { ticks, speed_hz: context.ticks_to_speed(ticks as i64) }
            },
            Decode::GConf => Reply::GConf(GConf::from_word(packet.data)),
            Decode::GStat => Reply::GStat(GStat::from_word(packet.data)),
            Decode::DrvStatus => Reply::DrvStatus(DrvStatus::from_word(packet.data)),
            Decode::RampStat => Reply::RampStat(RampStat::from_word(packet.data)),
            Decode::EncStatus => Reply::EncStatus(EncStatus::from_word(packet.data)),
            Decode::Moving => Reply::Flag(!DrvStatus::from_word(packet.data).standstill()),
            Decode::PositionReached => Reply::Flag(
                RampStat::from_word(packet.data).position_reached(),
            ),
            Decode::VelocityReached => Reply::Flag(
                RampStat::from_word(packet.data).velocity_reached(),
            ),
            Decode::LimitRight => Reply::Flag(RampStat::from_word(packet.data).status_stop_r()),
            Decode::LimitLeft => Reply::Flag(RampStat::from_word(packet.data).status_stop_l()),
        }
    }
}

/// An operation of the driver.
#[derive(Clone, Copy, Debug, PartialEq, Eq)]
pub enum Request {
    /// Read the register at the address: two exchanges with the same read
    /// request, of which the second brings the register's content.
    Read(u8, Decode),
    /// Write the data word to the register at the address.
    Write(u8, u32),
    /// Write the data word to the register at the address and keep the status
    /// byte of the reply in the driver.
    WriteLatched(u8, u32),
    /// Enable the motor, then write the target position.
    MoveTo(u32),
    /// Write zero to the actual and to the target position.
    SetHome,
    /// Write one acceleration to both acceleration and both deceleration
    /// registers.
    SetAcceleration(u32),
    /// Disable the motor, write zero to the start and to the maximum velocity,
    /// read the actual position, ask the caller for the target word of that
    /// position, and write that word to the target position.
    Stop,
    /// Drive the enable pin to its active level.
    Enable,
    /// Drive the enable pin to its inactive level.
    Disable,
    /// Best-effort read of the register at the address into the five bytes
    /// given: failures are passed over, and the bytes stay as they are unless a
    /// transfer takes place.
    OldRead(u8, [u8; 5]),
    /// Best-effort write of the data word to the register at the address:
    /// failures are passed over.
    OldWrite(u8, u32),
}

/// The level of the enable pin that switches the motor on: low, or high where
/// the pin is inverted.
pub open spec fn spec_enable_level(inverted: bool) -> Level {
    if inverted {
        Level::High
    } else {
        Level::Low
    }
}

/// The level of the enable pin that switches the motor off: high, or low where
/// the pin is inverted.
pub open spec fn spec_disable_level(inverted: bool) -> Level {
    if inverted {
        Level::Low
    } else {
        Level::High
    }
}

/// The level of the enable pin that switches the motor on.
#[verifier::when_used_as_spec(spec_enable_level)]
pub fn enable_level(inverted: bool) -> (level: Level)
    ensures
        level == spec_enable_level(inverted),
{
    if inverted {
        Level::High
    } else {
        Level::Low
    }
}

/// The level of the enable pin that switches the motor off.
#[verifier::when_used_as_spec(spec_disable_level)]
pub fn disable_level(inverted: bool) -> (level: Level)
    ensures
        level == spec_disable_level(inverted),
{
    if inverted {
        Level::Low
    } else {
        Level::High
    }
}

/// The datagram that fills the unused places of a script.
pub open spec fn spec_filler() -> Datagram {
    Datagram { address: 0, data: 0 }
}

/// The datagram that fills the unused places of a script.
#[verifier::when_used_as_spec(spec_filler)]
pub fn filler() -> (datagram: Datagram)
    ensures
        datagram == spec_filler(),
{
    Datagram { address: 0, data: 0 }
}

impl Request {
    /// The level that the enable pin is driven to before the first exchange.
    /// There is none where the operation does not touch the pin, nor where no
    /// enable pin is attached.
    pub open spec fn gate(self, attached: bool, inverted: bool) -> Option<Level> {
        if !attached {
            None
        } else {
            match self {
                Request::MoveTo(_) | Request::Enable => Some(spec_enable_level(inverted)),
                Request::Stop | Request::Disable => Some(spec_disable_level(inverted)),
                _ => None,
            }
        }
    }

    /// The datagrams that the operation sends, in order. Only the last datagram
    /// of a stop depends on `word`, the word that the caller supplies when it
    /// is asked for the target of the position read.
    pub open spec fn datagrams(self, word: u32) -> Seq<Datagram> {
        match self {
            Request::Read(addr, _) => seq![Datagram::spec_read(addr), Datagram::spec_read(addr)],
            Request::Write(addr, data) => seq![Datagram::spec_write(addr, data)],
            Request::WriteLatched(addr, data) => seq![Datagram::spec_write(addr, data)],
            Request::MoveTo(target) => seq![
                Datagram::spec_write(Registers::XTARGET.spec_addr(), target),
            ],
            Request::SetHome => seq![
                Datagram::spec_write(Registers::XACTUAL.spec_addr(), 0),
                Datagram::spec_write(Registers::XTARGET.spec_addr(), 0),
            ],
            Request::SetAcceleration(ticks) => seq![
                Datagram::spec_write(Registers::AMAX.spec_addr(), ticks),
                Datagram::spec_write(Registers::DMAX.spec_addr(), ticks),
                Datagram::spec_write(Registers::A1.spec_addr(), ticks),
                Datagram::spec_write(Registers::D1.spec_addr(), ticks),
            ],
            Request::Stop => seq![
                Datagram::spec_write(Registers::VSTART.spec_addr(), 0),
                Datagram::spec_write(Registers::VMAX.spec_addr(), 0),
                Datagram::spec_read(Registers::XACTUAL.spec_addr()),
                Datagram::spec_read(Registers::XACTUAL.spec_addr()),
                Datagram::spec_write(Registers::XTARGET.spec_addr(), word),
            ],
            Request::Enable => seq![],
            Request::Disable => seq![],
            Request::OldRead(register, _) => seq![
                Datagram { address: register, data: 0 },
                Datagram { address: register, data: 0 },
            ],
            Request::OldWrite(register, payload) => seq![Datagram::spec_write(register, payload)],
        }
    }

    /// Whether failures are passed over.
    pub open spec fn lenient(self) -> bool {
        self is OldRead || self is OldWrite
    }

    /// Whether the data word of the last datagram is asked of the caller.
    pub open spec fn asks(self) -> bool {
        self is Stop
    }

    /// The reply that stands until a transfer takes place: the caller's five
    /// bytes in a best-effort read, zeros otherwise.
    pub open spec fn seed(self) -> [u8; 5] {
        match self {
            Request::OldRead(_, buffer) => buffer,
            _ => [0u8, 0u8, 0u8, 0u8, 0u8],
        }
    }

    /// The place `index` of the script: the datagram sent there, with zero
    /// where the data word is open, or the filler.
    pub open spec fn place(self, index: int) -> Datagram {
        if index < self.datagrams(0).len() {
            self.datagrams(0)[index]
        } else {
            spec_filler()
        }
    }

    /// The script of the operation for a driver whose enable pin is attached or
    /// not, inverted or not.
    pub open spec fn spec_script(&self, attached: bool, inverted: bool) -> Script {
        Script {
            gate: self.gate(attached, inverted),
            frames: [self.place(0), self.place(1), self.place(2), self.place(3), self.place(4)],
            len: self.datagrams(0).len() as usize,
            asks: self.asks(),
            lenient: self.lenient(),
            seed: self.seed(),
        }
    }

    /// The script sends the operation's datagrams and nothing else, whatever
    /// word the caller supplies.
    pub proof fn lemma_script_datagrams(self, attached: bool, inverted: bool, word: u32)
        ensures
            self.spec_script(attached, inverted).datagrams(word) == self.datagrams(word),
            self.datagrams(word).len() <= 5,
            self.datagrams(word).len() == self.datagrams(0).len(),
    {
        assert(self.spec_script(attached, inverted).datagrams(word) =~= self.datagrams(word));
    }

    /// Whether the status byte of the last reply is kept in the driver.
    pub open spec fn spec_keeps_status(&self) -> bool {
        match *self {
            Request::Read(_, decode) => decode.spec_keeps_status(),
            Request::WriteLatched(_, _) => true,
            Request::MoveTo(_) => true,
            Request::SetHome => true,
            Request::SetAcceleration(_) => true,
            Request::Stop => true,
            _ => false,
        }
    }

    /// Whether the bytes of the last reply are kept in the driver.
    pub open spec fn spec_keeps_debug(&self) -> bool {
        match *self {
            Request::Read(_, decode) => decode == Decode::GStat,
            _ => false,
        }
    }

    /// The packet that the last reply of the operation holds. The bytes kept
    /// for diagnosis are the reply itself after a read, the datagram sent after
    /// a write; `word` is the word that the caller has supplied.
    pub open spec fn spec_packet(&self, reply: [u8; 5], word: u32) -> DataPacket {
        let last = self.datagrams(word).len() - 1;
        match *self {
            Request::Write(_, _) | Request::WriteLatched(_, _) | Request::MoveTo(_)
            | Request::SetHome | Request::SetAcceleration(_) | Request::OldWrite(_, _)
            | Request::Stop => DataPacket::spec_decode(
                reply,
                self.datagrams(word)[last].spec_to_bytes(),
            ),
            _ => DataPacket::spec_decode(reply, reply),
        }
    }

    /// The answer of the operation, given the bytes of its last reply, the
    /// context by which positions and velocities are converted, and the word
    /// that the caller has supplied.
    pub open spec fn spec_answer(&self, reply: [u8; 5], context: MotorContext, word: u32) -> Reply {
        match *self {
            Request::Read(_, decode) => decode.spec_apply(self.spec_packet(reply, word), context),
            Request::Enable | Request::Disable => Reply::Unit,
            Request::OldRead(_, _) => Reply::Frame(reply),
            Request::OldWrite(_, _) => Reply::StatusByte(reply[0]),
            _ => Reply::Packet(self.spec_packet(reply, word)),
        }
    }

    /// Builds the script of the operation.
    #[verifier::when_used_as_spec(spec_script)]
    pub fn script(&self, attached: bool, inverted: bool) -> (script: Script)
        ensures
            script == self.spec_script(attached, inverted),
            forall|word: u32| script.datagrams(word) == self.datagrams(word),
    {
        proof {
            assert forall|word: u32|
                self.spec_script(attached, inverted).datagrams(word) == self.datagrams(
                    word,
                ) by {
                self.lemma_script_datagrams(attached, inverted, word);
            }
        }
        let zeros: [u8; 5] = [0, 0, 0, 0, 0];
        let none: Option<Level> = None;
        let on = if attached {
            Some(enable_level(inverted))
        } else {
            none
        };
        let off = if attached {
            Some(disable_level(inverted))
        } else {
            none
        };
        let script = match *self {
            Request::Read(addr, _) => Script {
                gate: None,
                frames: [Datagram::read(addr), Datagram::read(addr), filler(), filler(), filler()],
                len: 2,
                asks: false,
                lenient: false,
                seed: zeros,
            },
            Request::Write(addr, data) => Script {
                gate: None,
                frames: [Datagram::write(addr, data), filler(), filler(), filler(), filler()],
                len: 1,
                asks: false,
                lenient: false,
                seed: zeros,
            },
            Request::WriteLatched(addr, data) => Script {
                gate: None,
                frames: [Datagram::write(addr, data), filler(), filler(), filler(), filler()],
                len: 1,
                asks: false,
                lenient: false,
                seed: zeros,
            },
            Request::MoveTo(target) => Script {
                gate: on,
                frames: [
                    Datagram::write(Registers::XTARGET.addr(), target),
                    filler(),
                    filler(),
                    filler(),
                    filler(),
                ],
                len: 1,
                asks: false,
                lenient: false,
                seed: zeros,
            },
            Request::SetHome => Script {
                gate: None,
                frames: [
                    Datagram::write(Registers::XACTUAL.addr(), 0),
                    Datagram::write(Registers::XTARGET.addr(), 0),
                    filler(),
                    filler(),
                    filler(),
                ],
                len: 2,
                asks: false,
                lenient: false,
                seed: zeros,
            },
            Request::SetAcceleration(ticks) => Script {
                gate: None,
                frames: [
                    Datagram::write(Registers::AMAX.addr(), ticks),
                    Datagram::write(Registers::DMAX.addr(), ticks),
                    Datagram::write(Registers::A1.addr(), ticks),
                    Datagram::write(Registers::D1.addr(), ticks),
                    filler(),
                ],
                len: 4,
                asks: false,
                lenient: false,
                seed: zeros,
            },
            Request::Stop => Script {
                gate: off,
                frames: [
                    Datagram::write(Registers::VSTART.addr(), 0),
                    Datagram::write(Registers::VMAX.addr(), 0),
                    Datagram::read(Registers::XACTUAL.addr()),
                    Datagram::read(Registers::XACTUAL.addr()),
                    Datagram::write(Registers::XTARGET.addr(), 0),
                ],
                len: 5,
                asks: true,
                lenient: false,
                seed: zeros,
            },
            Request::Enable => Script {
                gate: on,
                frames: [filler(), filler(), filler(), filler(), filler()],
                len: 0,
                asks: false,
                lenient: false,
                seed: zeros,
            },
            Request::Disable => Script {
                gate: off,
                frames: [filler(), filler(), filler(), filler(), filler()],
                len: 0,
                asks: false,
                lenient: false,
                seed: zeros,
            },
            Request::OldRead(register, buffer) => Script {
                gate: None,
                frames: [
                    Datagram { address: register, data: 0 },
                    Datagram { address: register, data: 0 },
                    filler(),
                    filler(),
                    filler(),
                ],
                len: 2,
                asks: false,
                lenient: true,
                seed: buffer,
            },
            Request::OldWrite(register, payload) => Script {
                gate: None,
                frames: [Datagram::write(register, payload), filler(), filler(), filler(), filler()],
                len: 1,
                asks: false,
                lenient: true,
                seed: zeros,
            },
        };
        assert(script.frames =~= self.spec_script(attached, inverted).frames);
        assert(script.seed =~= self.seed());
        script
    }

    /// Whether the status byte of the last reply is kept in the driver.
    #[verifier::when_used_as_spec(spec_keeps_status)]
    pub fn keeps_status(&self) -> (keeps: bool)
        ensures
            keeps == self.spec_keeps_status(),
    {
        match *self {
            Request::Read(_, decode) => decode.keeps_status(),
            Request::WriteLatched(_, _) => true,
            Request::MoveTo(_) => true,
            Request::SetHome => true,
            Request::SetAcceleration(_) => true,
            Request::Stop => true,
            _ => false,
        }
    }

    /// Whether the bytes of the last reply are kept in the driver.
    #[verifier::when_used_as_spec(spec_keeps_debug)]
    pub fn keeps_debug(&self) -> (keeps: bool)
        ensures
            keeps == self.spec_keeps_debug(),
    {
        match *self {
            Request::Read(_, Decode::GStat) => true,
            _ => false,
        }
    }

    /// Decodes the last reply of the operation.
    #[verifier::when_used_as_spec(spec_packet)]
    pub fn packet(&self, reply: [u8; 5], word: u32) -> (packet: DataPacket)
        ensures
            packet == self.spec_packet(reply, word),
    {
        match *self {
            Request::Stop => DataPacket::decode(
                reply,
                Datagram::write(Registers::XTARGET.addr(), word).to_bytes(),
            ),
            Request::Write(addr, data) | Request::WriteLatched(addr, data) => DataPacket::decode(
                reply,
                Datagram::write(addr, data).to_bytes(),
            ),
            Request::OldWrite(register, payload) => DataPacket::decode(
                reply,
                Datagram::write(register, payload).to_bytes(),
            ),
            Request::MoveTo(target) => DataPacket::decode(
                reply,
                Datagram::write(Registers::XTARGET.addr(), target).to_bytes(),
            ),
            Request::SetHome => DataPacket::decode(
                reply,
                Datagram::write(Registers::XTARGET.addr(), 0).to_bytes(),
            ),
            Request::SetAcceleration(ticks) => DataPacket::decode(
                reply,
                Datagram::write(Registers::D1.addr(), ticks).to_bytes(),
            ),
            _ => DataPacket::decode(reply, reply),
        }
    }

    /// Makes the answer of the operation out of its last reply.
    #[verifier::when_used_as_spec(spec_answer)]
    pub fn answer(&self, reply: [u8; 5], context: MotorContext, word: u32) -> (answer: Reply)
        ensures
            answer == self.spec_answer(reply, context, word),
    {
        match *self {
            Request::Read(_, decode) => decode.apply(self.packet(reply, word), context),
            Request::Enable | Request::Disable => Reply::Unit,
            Request::OldRead(_, _) => Reply::Frame(reply),
            Request::OldWrite(_, _) => Reply::StatusByte(reply[0]),
            _ => Reply::Packet(self.packet(reply, word)),
        }
    }
}

} // verus!
