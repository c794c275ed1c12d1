//! The order of pin and bus actions that make up one operation on the chip.
//!
//! The sequencer touches no hardware. It names the next [`Action`]; its user
//! carries the action out and reports how it went with an [`Event`]; the
//! sequencer answers with the action after that, until it reports
//! [`Action::Done`]. Each datagram of a [`Script`] is sent in an exchange of its
//! own: chip select low, transfer, chip select high. Chip select is driven high
//! again before the sequencer reports the end of an operation, whether the
//! operation succeeded or failed.
//!
//! A script may leave the data word of its last datagram open. The sequencer
//! then asks for that word before the last exchange, with the position that
//! the exchange before it has read: what the target word of a position is, is
//! for the caller to say.

use vstd::prelude::*;
use crate::datagram::{DataPacket, Datagram, Error};
use crate::units::{signed, to_signed};

verus! {

/// The level of an output pin.
#[derive(Clone, Copy, Debug, PartialEq, Eq, Structural)]
pub enum Level {
    /// The pin is driven low.
    Low,
    /// The pin is driven high.
    High,
}

/// What the sequencer asks its user to do next.
#[derive(Debug, PartialEq, Eq)]
pub enum Action<T, E> {
    /// Drive the enable pin to the level, then report `PinSet` or `PinFailed`.
    SetEnable(Level),
    /// Drive the chip-select pin to the level, then report `PinSet` or
    /// `PinFailed`.
    SetChipSelect(Level),
    /// Send the five bytes while receiving five, then report `Transferred` with
    /// the bytes received, or `TransferFailed`.
    Transfer([u8; 5]),
    /// Say which word is to be written as the target for this position, in
    /// microsteps, then report it with `Scaled`. No chip select is low while
    /// this is asked.
    Scale(i32),
    /// The operation is over; this is its result.
    Done(Result<T, Error<E>>),
}

/// How the action last asked for went.
#[derive(Debug, PartialEq, Eq)]
pub enum Event<E> {
    /// The pin was driven.
    PinSet,
    /// The pin could not be driven.
    PinFailed,
    /// The transfer took place; these are the five bytes received.
    Transferred([u8; 5]),
    /// The bus reported an error.
    TransferFailed(E),
    /// The word to write as the target for the position that was asked about.
    Scaled(u32),
}

/// The datagrams of one operation, up to five, and how to send them.
#[derive(Clone, Copy, Debug, PartialEq, Eq)]
pub struct Script {
    /// The level to drive the enable pin to before the first exchange, if any.
    pub gate: Option<Level>,
    /// The datagrams; only the first `len` of them are sent.
    pub frames: [Datagram; 5],
    /// How many datagrams are sent.
    pub len: usize,
    /// Whether the data word of the last datagram is open: asked of the caller
    /// before the last exchange.
    pub asks: bool,
    /// Whether failures are ignored instead of ending the operation.
    pub lenient: bool,
    /// The reply reported when no transfer has taken place.
    pub seed: [u8; 5],
}

impl Script {
    /// The number of exchanges.
    pub open spec fn spec_count(&self) -> usize {
        if self.len <= 5 {
            self.len
        } else {
            5
        }
    }

    /// Whether the data word of the exchange at `index` is open: the script
    /// asks, and the exchange is its last.
    pub open spec fn spec_asks_at(&self, index: usize) -> bool {
        self.asks && index + 1 == self.spec_count()
    }

    /// The datagram of the exchange at `index`, given the word that the caller
    /// has supplied: the word takes the place of the data word where that is
    /// open.
    pub open spec fn spec_place(&self, index: usize, word: u32) -> Datagram {
        if self.spec_asks_at(index) {
            Datagram { address: self.frames[index as int].address, data: word }
        } else {
            self.frames[index as int]
        }
    }

    /// The datagrams that are sent, in order, given the word that the caller
    /// has supplied.
    pub open spec fn datagrams(self, word: u32) -> Seq<Datagram> {
        Seq::new(self.spec_count() as nat, |i: int| self.spec_place(i as usize, word))
    }

    /// The bytes of the exchange at `index`; a script has no bytes to send beyond
    /// its last exchange, which shows as a frame of zeros.
    pub open spec fn spec_frame(&self, index: usize, word: u32) -> [u8; 5] {
        if index < self.spec_count() {
            self.spec_place(index, word).spec_to_bytes()
        } else {
            [0u8, 0u8, 0u8, 0u8, 0u8]
        }
    }

    /// The number of exchanges.
    #[verifier::when_used_as_spec(spec_count)]
    pub fn count(&self) -> (count: usize)
        ensures
            count == self.spec_count(),
    {
        if self.len <= 5 {
            self.len
        } else {
            5
        }
    }

    /// Whether the data word of the exchange at `index` is open.
    #[verifier::when_used_as_spec(spec_asks_at)]
    pub fn asks_at(&self, index: usize) -> (open: bool)
        ensures
            open == self.spec_asks_at(index),
    {
        self.asks && index < 5 && index + 1 == self.count()
    }

    /// The bytes of the exchange at `index`, given the word that the caller has
    /// supplied.
    #[verifier::when_used_as_spec(spec_frame)]
    pub fn frame(&self, index: usize, word: u32) -> (frame: [u8; 5])
        ensures
            frame == self.spec_frame(index, word),
            index < self.datagrams(word).len() ==> frame@ == self.datagrams(word)[index as int].bytes(),
    {
        if index < self.count() {
            if self.asks_at(index) {
                Datagram { address: self.frames[index].address, data: word }.to_bytes()
            } else {
                self.frames[index].to_bytes()
            }
        } else {
            [0, 0, 0, 0, 0]
        }
    }
}

/// The position, in microsteps, that a reply holds in its data word: the word
/// read as a number in two's complement.
pub open spec fn spec_position_of(reply: [u8; 5]) -> i32 {
    signed(DataPacket::spec_decode(reply, reply).data) as i32
}

/// The position, in microsteps, that a reply holds in its data word.
#[verifier::when_used_as_spec(spec_position_of)]
pub fn position_of(reply: [u8; 5]) -> (steps: i32)
    ensures
        steps == spec_position_of(reply),
{
    to_signed(DataPacket::decode(reply, reply).data)
}

/// Where the sequencer stands within an operation.
#[derive(Clone, Copy, Debug, PartialEq, Eq, Structural)]
pub enum Stage {
    /// No operation is in progress.
    Idle,
    /// The enable pin is being driven.
    Gate,
    /// The caller is asked for the word of the last datagram.
    Scale,
    /// Chip select is being driven low.
    Select,
    /// The datagram is being transferred.
    Transfer,
    /// Chip select is being driven high.
    Release,
}

/// The state of one operation: its script and how far it has come.
pub struct Sequencer<E> {
    /// What is being carried out.
    pub script: Script,
    /// The action that is awaited.
    pub stage: Stage,
    /// The exchange in progress, counted from zero.
    pub index: u8,
    /// The failure of the exchange in progress, kept while chip select is
    /// released.
    pub failure: Option<Error<E>>,
    /// The bytes received in the last transfer that took place, or the script's
    /// seed before that.
    pub reply: [u8; 5],
    /// The word that the caller has supplied for the open datagram; zero until
    /// then.
    pub word: u32,
}

impl<E> Sequencer<E> {
    /// No operation is in progress.
    pub open spec fn spec_is_idle(&self) -> bool {
        self.stage == Stage::Idle
    }

    /// The event answers the action that is awaited: a pin event while a pin is
    /// being driven, a transfer event while a datagram is being transferred, a
    /// word while a word is asked for.
    pub open spec fn awaits(self, event: Event<E>) -> bool {
        match self.stage {
            Stage::Idle => false,
            Stage::Transfer => event is Transferred || event is TransferFailed,
            Stage::Scale => event is Scaled,
            _ => event is PinSet || event is PinFailed,
        }
    }

    /// The datagrams of the operation, with the word that the caller has
    /// supplied so far.
    pub open spec fn datagrams(self) -> Seq<Datagram> {
        self.script.datagrams(self.word)
    }

    /// What holds of every state that `begin` and `resume` lead to: the exchange
    /// in progress is one that the script has, the enable pin is awaited only
    /// where the script asks for it, a word is asked for only before the last
    /// exchange of a script that leaves it open, and a failure is kept only
    /// while chip select is released, and never in a lenient script.
    pub open spec fn consistent(self) -> bool {
        &&& self.stage == Stage::Select || self.stage == Stage::Transfer || self.stage
            == Stage::Release ==> self.index < self.script.spec_count()
        &&& self.stage == Stage::Scale ==> self.script.spec_asks_at(self.index as usize)
        &&& self.stage == Stage::Gate ==> self.script.gate is Some
        &&& self.stage != Stage::Release ==> self.failure is None
        &&& self.script.lenient ==> self.failure is None
    }

    /// An upper bound on the number of events that the operation still takes:
    /// three for every exchange that has not been entered, what is left of the
    /// exchange in progress, and one for a word that is still to be asked for.
    pub open spec fn events_left(self) -> nat {
        let exchanges = (self.script.spec_count() - self.index) as nat;
        let word: nat = if self.script.asks && self.index + 1 < self.script.spec_count() {
            1
        } else {
            0
        };
        match self.stage {
            Stage::Idle => 0,
            Stage::Gate => 2 + 3 * self.script.spec_count() as nat,
            Stage::Scale => 3 * exchanges + 1,
            Stage::Select => 3 * exchanges + word,
            Stage::Transfer => (3 * exchanges - 1 + word) as nat,
            Stage::Release => (3 * exchanges - 2 + word) as nat,
        }
    }

    /// The level that the enable pin is driven to before the first exchange.
    pub open spec fn gate_level(self) -> Level {
        match self.script.gate {
            Some(level) => level,
            None => Level::Low,
        }
    }

    /// The action that is awaited.
    pub open spec fn awaited(self) -> Action<[u8; 5], E> {
        match self.stage {
            Stage::Idle => Action::Done(Ok(self.reply)),
            Stage::Gate => Action::SetEnable(self.gate_level()),
            Stage::Scale => Action::Scale(spec_position_of(self.reply)),
            Stage::Select => Action::SetChipSelect(Level::Low),
            Stage::Transfer => Action::Transfer(
                self.script.spec_frame(self.index as usize, self.word),
            ),
            Stage::Release => Action::SetChipSelect(Level::High),
        }
    }

    /// The sequencer at rest, with the result of the operation that ended.
    pub open spec fn finish(self, result: Result<[u8; 5], Error<E>>) -> (Self, Action<[u8; 5], E>) {
        (Sequencer { stage: Stage::Idle, failure: None, ..self }, Action::Done(result))
    }

    /// The start of the exchange at `index`: chip select is asked low, or, where
    /// the data word of the exchange is open, the word is asked for first, with
    /// the position that the last reply holds. Where the script has no such
    /// exchange, the operation ends with the last reply.
    pub open spec fn enter(self, index: usize) -> (Self, Action<[u8; 5], E>) {
        if index < self.script.spec_count() {
            if self.script.spec_asks_at(index) {
                (
                    Sequencer { stage: Stage::Scale, index: index as u8, failure: None, ..self },
                    Action::Scale(spec_position_of(self.reply)),
                )
            } else {
                (
                    Sequencer { stage: Stage::Select, index: index as u8, failure: None, ..self },
                    Action::SetChipSelect(Level::Low),
                )
            }
        } else {
            self.finish(Ok(self.reply))
        }
    }

    /// The start of an operation: the enable pin is asked for where the script
    /// has a gate, the first exchange is entered where it has none.
    pub open spec fn spec_begin(script: Script) -> (Self, Action<[u8; 5], E>) {
        let fresh = Sequencer {
            script,
            stage: Stage::Idle,
            index: 0,
            failure: None,
            reply: script.seed,
            word: 0,
        };
        match script.gate {
            Some(level) => (Sequencer { stage: Stage::Gate, ..fresh }, Action::SetEnable(level)),
            None => fresh.enter(0),
        }
    }

    /// The state after an event, and the next action.
    ///
    /// An event that does not answer the awaited action changes nothing, and the
    /// action is asked for again. In a script that is not lenient, a pin that
    /// could not be driven ends the operation with `PinError`, and a failed
    /// transfer ends it with the bus error; either way chip select is asked high
    /// first if an exchange had been entered. In a lenient script both are
    /// passed over. A word that was asked for is kept, and the exchange that
    /// sends it begins.
    pub open spec fn spec_resume(self, event: Event<E>) -> (Self, Action<[u8; 5], E>) {
        if !self.awaits(event) {
            (self, self.awaited())
        } else {
            let failed = event is PinFailed && !self.script.lenient;
            match self.stage {
                Stage::Idle => (self, self.awaited()),
                Stage::Gate => if failed {
                    self.finish(Err(Error::PinError))
                } else {
                    self.enter(0)
                },
                Stage::Scale => match event {
                    Event::Scaled(word) => (
                        Sequencer { stage: Stage::Select, word, ..self },
                        Action::SetChipSelect(Level::Low),
                    ),
                    _ => (self, self.awaited()),
                },
                Stage::Select => if failed {
                    (
                        Sequencer { stage: Stage::Release, failure: Some(Error::PinError), ..self },
                        Action::SetChipSelect(Level::High),
                    )
                } else {
                    (
                        Sequencer { stage: Stage::Transfer, ..self },
                        Action::Transfer(self.script.spec_frame(self.index as usize, self.word)),
                    )
                },
                Stage::Transfer => match event {
                    Event::Transferred(reply) => (
                        Sequencer { stage: Stage::Release, reply, ..self },
                        Action::SetChipSelect(Level::High),
                    ),
                    Event::TransferFailed(error) => (
                        Sequencer {
                            stage: Stage::Release,
                            failure: if self.script.lenient {
                                None
                            } else {
                                Some(Error::Spi(error))
                            },
                            ..self
                        },
                        Action::SetChipSelect(Level::High),
                    ),
                    _ => (self, self.awaited()),
                },
                Stage::Release => match self.failure {
                    Some(error) => self.finish(Err(error)),
                    None => if failed {
                        self.finish(Err(Error::PinError))
                    } else {
                        self.enter((self.index + 1) as usize)
                    },
                },
            }
        }
    }

    /// A sequencer at rest, with an empty script.
    pub open spec fn spec_new() -> Self {
        Sequencer {
            script: Script {
                gate: None,
                frames: [
                    Datagram::spec_read(0),
                    Datagram::spec_read(0),
                    Datagram::spec_read(0),
                    Datagram::spec_read(0),
                    Datagram::spec_read(0),
                ],
                len: 0,
                asks: false,
                lenient: false,
                seed: [0u8, 0u8, 0u8, 0u8, 0u8],
            },
            stage: Stage::Idle,
            index: 0,
            failure: None,
            reply: [0u8, 0u8, 0u8, 0u8, 0u8],
            word: 0,
        }
    }

    /// A sequencer at rest, with an empty script.
    #[verifier::when_used_as_spec(spec_new)]
    pub fn new() -> (sequencer: Self)
        ensures
            sequencer == Self::spec_new(),
            sequencer.spec_is_idle(),
    {
        Sequencer {
            script: Script {
                gate: None,
                frames: [
                    Datagram::read(0),
                    Datagram::read(0),
                    Datagram::read(0),
                    Datagram::read(0),
                    Datagram::read(0),
                ],
                len: 0,
                asks: false,
                lenient: false,
                seed: [0, 0, 0, 0, 0],
            },
            stage: Stage::Idle,
            index: 0,
            failure: None,
            reply: [0, 0, 0, 0, 0],
            word: 0,
        }
    }

    /// Whether no operation is in progress.
    #[verifier::when_used_as_spec(spec_is_idle)]
    pub fn is_idle(&self) -> (idle: bool)
        ensures
            idle == self.spec_is_idle(),
    {
        match self.stage {
            Stage::Idle => true,
            _ => false,
        }
    }

    /// Ends the operation with `result`.
    fn leave(&mut self, result: Result<[u8; 5], Error<E>>) -> (action: Action<[u8; 5], E>)
        requires
            old(self).failure is None,
        ensures
            (*final(self), action) == old(self).finish(result),
    {
        self.stage = Stage::Idle;
        Action::Done(result)
    }

    /// Enters the exchange at `index`, or ends the operation where the script has
    /// no such exchange.
    fn advance(&mut self, index: usize) -> (action: Action<[u8; 5], E>)
        requires
            old(self).failure is None,
        ensures
            (*final(self), action) == old(self).enter(index),
    {
        if index < self.script.count() {
            self.index = index as u8;
            if self.script.asks_at(index) {
                self.stage = Stage::Scale;
                Action::Scale(position_of(self.reply))
            } else {
                self.stage = Stage::Select;
                Action::SetChipSelect(Level::Low)
            }
        } else {
            let reply = self.reply;
            self.leave(Ok(reply))
        }
    }

    /// Starts the operation that `script` describes and names its first action.
    pub fn begin(script: Script) -> (start: (Self, Action<[u8; 5], E>))
        ensures
            start == Self::spec_begin(script),
    {
        let mut fresh = Sequencer {
            script,
            stage: Stage::Idle,
            index: 0,
            failure: None,
            reply: script.seed,
            word: 0,
        };
        match script.gate {
            Some(level) => {
                fresh.stage = Stage::Gate;
                (fresh, Action::SetEnable(level))
            },
            None => {
                let action = fresh.advance(0);
                (fresh, action)
            },
        }
    }

    /// Takes in how the awaited action went and names the next action.
    pub fn resume(&mut self, event: Event<E>) -> (action: Action<[u8; 5], E>)
        requires
            !old(self).spec_is_idle(),
        ensures
            (*final(self), action) == old(self).spec_resume(event),
    {
        let strict = !self.script.lenient;
        match self.stage {
            Stage::Idle => Action::Done(Ok(self.reply)),
            Stage::Gate => match event {
                Event::PinSet => self.enter_first(),
                Event::PinFailed => if strict {
                    self.failure = None;
                    self.leave(Err(Error::PinError))
                } else {
                    self.enter_first()
                },
                _ => Action::SetEnable(self.gate()),
            },
            Stage::Scale => match event {
                Event::Scaled(word) => {
                    self.stage = Stage::Select;
                    self.word = word;
                    Action::SetChipSelect(Level::Low)
                },
                _ => Action::Scale(position_of(self.reply)),
            },
            Stage::Select => match event {
                Event::PinFailed => if strict {
                    self.stage = Stage::Release;
                    self.failure = Some(Error::PinError);
                    Action::SetChipSelect(Level::High)
                } else {
                    self.stage = Stage::Transfer;
                    Action::Transfer(self.script.frame(self.index as usize, self.word))
                },
                Event::PinSet => {
                    self.stage = Stage::Transfer;
                    Action::Transfer(self.script.frame(self.index as usize, self.word))
                },
                _ => Action::SetChipSelect(Level::Low),
            },
            Stage::Transfer => match event {
                Event::Transferred(reply) => {
                    self.stage = Stage::Release;
                    self.reply = reply;
                    Action::SetChipSelect(Level::High)
                },
                Event::TransferFailed(error) => {
                    self.stage = Stage::Release;
                    self.failure = if strict {
                        Some(Error::Spi(error))
                    } else {
                        None
                    };
                    Action::SetChipSelect(Level::High)
                },
                _ => Action::Transfer(self.script.frame(self.index as usize, self.word)),
            },
            Stage::Release => match event {
                Event::PinSet => self.settle(false),
                Event::PinFailed => self.settle(strict),
                _ => Action::SetChipSelect(Level::High),
            },
        }
    }

    /// The level that the enable pin is driven to before the first exchange.
    fn gate(&self) -> (level: Level)
        ensures
            level == self.gate_level(),
    {
        match self.script.gate {
            Some(level) => level,
            None => Level::Low,
        }
    }

    /// Enters the first exchange once the enable pin is done with.
    fn enter_first(&mut self) -> (action: Action<[u8; 5], E>)
        ensures
            (*final(self), action) == old(self).enter(0),
    {
        self.failure = None;
        self.advance(0)
    }

    /// Closes the exchange in progress once chip select has been asked high: the
    /// operation ends with the failure that was kept, or with `PinError` where
    /// the release itself counts as failed, and goes on to the next exchange
    /// otherwise.
    fn settle(&mut self, failed: bool) -> (action: Action<[u8; 5], E>)
        ensures
            (*final(self), action) == (match old(self).failure {
                Some(error) => old(self).finish(Err(error)),
                None => if failed {
                    old(self).finish(Err(Error::PinError))
                } else {
                    old(self).enter((old(self).index + 1) as usize)
                },
            }),
    {
        match self.failure.take() {
            Some(error) => self.leave(Err(error)),
            None => if failed {
                self.leave(Err(Error::PinError))
            } else {
                let next: usize = self.index as usize + 1;
                self.advance(next)
            },
        }
    }
}

} // verus!
