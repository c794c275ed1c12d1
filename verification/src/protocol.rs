//! What the caller can rely on: the laws of the conversation between the
//! driver and the hardware.
//!
//! The laws are stated over the transition functions of the sequencer and of
//! the driver. They hold for every driver state, every reply of the chip and
//! every bus error.

use vstd::prelude::*;
use crate::datagram::{DataPacket, Datagram, Error};
use crate::driver::Tmc5160;
use crate::registers::{Address, Registers};
use crate::request::{spec_disable_level, spec_enable_level, Decode, Reply, Request};
use crate::sequencer::{
    spec_position_of, Action, Event, Level, Script, Sequencer, Stage,
};
use crate::wire::be_bytes;

verus! {

/// Every state that the sequencer reaches is consistent: the first state of an
/// operation is, and each event leads from a consistent state to a consistent
/// state.
pub proof fn lemma_consistent<E>(script: Script, sequencer: Sequencer<E>, event: Event<E>)
    ensures
        Sequencer::<E>::spec_begin(script).0.consistent(),
        sequencer.consistent() ==> sequencer.spec_resume(event).0.consistent(),
{
}

/// Every operation ends: each event that answers the awaited action brings the
/// operation nearer to its end, which comes after no more than three events for
/// each exchange, one for the enable pin and one for a word that is asked for.
pub proof fn lemma_progress<E>(script: Script, sequencer: Sequencer<E>, event: Event<E>)
    ensures
        Sequencer::<E>::spec_begin(script).0.events_left() <= 2 + 3 * script.datagrams(0).len(),
        sequencer.consistent() && sequencer.awaits(event) ==> sequencer.spec_resume(
            event,
        ).0.events_left() < sequencer.events_left(),
        sequencer.consistent() ==> (sequencer.events_left() == 0 <==> sequencer.spec_is_idle()),
{
}

/// One exchange that goes well: once chip select is low the datagram of the
/// exchange is transferred, the reply is kept, chip select is released, and
/// the sequencer goes on to the next exchange, or to the end after the last.
/// Where the data word of the next exchange is open, the word is asked for
/// before that exchange begins.
pub proof fn lemma_exchange<E>(sequencer: Sequencer<E>, reply: [u8; 5])
    requires
        sequencer.consistent(),
        sequencer.stage == Stage::Select,
    ensures
        ({
            let (selected, transfer) = sequencer.spec_resume(Event::PinSet);
            let (received, release) = selected.spec_resume(Event::Transferred(reply));
            let (next, action) = received.spec_resume(Event::PinSet);
            let following = (sequencer.index + 1) as usize;
            &&& transfer == Action::<[u8; 5], E>::Transfer(
                sequencer.datagrams()[sequencer.index as int].spec_to_bytes(),
            )
            &&& release == Action::<[u8; 5], E>::SetChipSelect(Level::High)
            &&& received.reply == reply
            &&& (next, action) == received.enter(following)
            &&& next.reply == reply && next.word == sequencer.word
            &&& following < sequencer.datagrams().len() ==> next.index == following
            &&& following < sequencer.datagrams().len() && !sequencer.script.spec_asks_at(
                following,
            ) ==> action == Action::<[u8; 5], E>::SetChipSelect(Level::Low) && next.stage
                == Stage::Select
            &&& following < sequencer.datagrams().len() && sequencer.script.spec_asks_at(
                following,
            ) ==> action == Action::<[u8; 5], E>::Scale(spec_position_of(reply)) && next.stage
                == Stage::Scale
            &&& following == sequencer.datagrams().len() ==> action == Action::<
                [u8; 5],
                E,
            >::Done(Ok(reply)) && next.spec_is_idle()
        }),
{
}

/// The word of an open datagram comes from the caller: while the sequencer
/// asks for it, any event but a word changes nothing and the ask is repeated;
/// the word that is reported is what the last exchange then writes.
pub proof fn lemma_word_supplied<E>(sequencer: Sequencer<E>, word: u32, other: Event<E>)
    requires
        sequencer.consistent(),
        sequencer.stage == Stage::Scale,
        !(other is Scaled),
    ensures
        ({
            let (repeated, ask) = sequencer.spec_resume(other);
            let (supplied, select) = sequencer.spec_resume(Event::Scaled(word));
            let (selected, transfer) = supplied.spec_resume(Event::PinSet);
            let last = sequencer.index as int;
            &&& sequencer.awaited() == Action::<[u8; 5], E>::Scale(
                spec_position_of(sequencer.reply),
            )
            &&& repeated == sequencer && ask == sequencer.awaited()
            &&& select == Action::<[u8; 5], E>::SetChipSelect(Level::Low)
            &&& supplied.word == word && supplied.index == sequencer.index
            &&& last + 1 == sequencer.script.datagrams(word).len()
            &&& supplied.datagrams()[last] == (Datagram {
                address: sequencer.script.frames[last].address,
                data: word,
            })
            &&& transfer == Action::<[u8; 5], E>::Transfer(
                supplied.datagrams()[last].spec_to_bytes(),
            )
        }),
{
}

/// The state after a run of exchanges that all go well, one for each of
/// `replies`, and the actions that the sequencer asks for on the way: three for
/// each exchange.
pub open spec fn exchanged<E>(sequencer: Sequencer<E>, replies: Seq<[u8; 5]>) -> (
    Sequencer<E>,
    Seq<Action<[u8; 5], E>>,
)
    decreases replies.len(),
{
    if replies.len() == 0 {
        (sequencer, Seq::empty())
    } else {
        let (selected, transfer) = sequencer.spec_resume(Event::PinSet);
        let (received, release) = selected.spec_resume(Event::Transferred(replies[0]));
        let (next, action) = received.spec_resume(Event::PinSet);
        let (end, rest) = exchanged(next, replies.skip(1));
        (end, seq![transfer, release, action] + rest)
    }
}

/// The datagrams of a script go out in the order of the script, each in an
/// exchange of its own. From the start of any exchange, as long as every
/// exchange goes well, the transfers are those of the script's datagrams from
/// there on, one after the other; each is followed by the release of chip
/// select, and then by chip select for the next exchange or, after the last
/// exchange of the script, by the end of the operation with the last reply.
/// The run is one that does not cross the point where a word is asked for.
pub proof fn lemma_order<E>(sequencer: Sequencer<E>, replies: Seq<[u8; 5]>)
    requires
        sequencer.consistent(),
        sequencer.stage == Stage::Select,
        sequencer.index + replies.len() <= sequencer.datagrams().len(),
        sequencer.script.asks ==> sequencer.index + 1 >= sequencer.datagrams().len()
            || sequencer.index + replies.len() + 1 < sequencer.datagrams().len(),
    ensures
        ({
            let (end, actions) = exchanged(sequencer, replies);
            let first = sequencer.index as int;
            let count = sequencer.datagrams().len() as int;
            &&& actions.len() == 3 * replies.len()
            &&& end.script == sequencer.script
            &&& end.word == sequencer.word
            &&& end.consistent()
            &&& forall|j: int|
                0 <= j < replies.len() ==> {
                    &&& #[trigger] actions[3 * j] == Action::<[u8; 5], E>::Transfer(
                        sequencer.datagrams()[first + j].spec_to_bytes(),
                    )
                    &&& actions[3 * j + 1] == Action::<[u8; 5], E>::SetChipSelect(Level::High)
                    &&& first + j + 1 < count ==> actions[3 * j + 2] == Action::<
                        [u8; 5],
                        E,
                    >::SetChipSelect(Level::Low)
                    &&& first + j + 1 == count ==> actions[3 * j + 2] == Action::<
                        [u8; 5],
                        E,
                    >::Done(Ok(replies[j]))
                }
            &&& replies.len() > 0 ==> end.reply == replies.last()
            &&& first + replies.len() < count ==> end.stage == Stage::Select && end.index
                == first + replies.len()
            &&& replies.len() > 0 && first + replies.len() == count ==> end.spec_is_idle()
        }),
    decreases replies.len(),
{
    if replies.len() > 0 {
        let (selected, transfer) = sequencer.spec_resume(Event::PinSet);
        let (received, release) = selected.spec_resume(Event::Transferred(replies[0]));
        let (next, action) = received.spec_resume(Event::PinSet);
        let tail = replies.skip(1);
        let (end, rest) = exchanged(next, tail);
        let (whole_end, actions) = exchanged(sequencer, replies);
        let first = sequencer.index as int;
        let count = sequencer.datagrams().len() as int;
        lemma_exchange(sequencer, replies[0]);
        assert(actions == seq![transfer, release, action] + rest);
        assert(whole_end == end);
        if tail.len() > 0 {
            lemma_order(next, tail);
            assert(rest.len() == 3 * tail.len());
            assert forall|j: int| 0 <= j < replies.len() implies {
                &&& #[trigger] actions[3 * j] == Action::<[u8; 5], E>::Transfer(
                    sequencer.datagrams()[first + j].spec_to_bytes(),
                )
                &&& actions[3 * j + 1] == Action::<[u8; 5], E>::SetChipSelect(Level::High)
                &&& first + j + 1 < count ==> actions[3 * j + 2] == Action::<
                    [u8; 5],
                    E,
                >::SetChipSelect(Level::Low)
                &&& first + j + 1 == count ==> actions[3 * j + 2] == Action::<[u8; 5], E>::Done(
                    Ok(replies[j]),
                )
            } by {
                if j > 0 {
                    let k = j - 1;
                    assert(actions[3 * j] == rest[3 * k]);
                    assert(actions[3 * j + 1] == rest[3 * k + 1]);
                    assert(actions[3 * j + 2] == rest[3 * k + 2]);
                    assert(tail[k] == replies[j]);
                    assert(next.index + k == first + j);
                }
            }
            assert(tail.last() == replies.last());
        } else {
            assert(rest =~= Seq::<Action<[u8; 5], E>>::empty());
            assert(replies.last() == replies[0]);
        }
    }
}

/// A bus error ends an operation that is not lenient: chip select is released
/// next, and whether or not that goes well, the operation then ends with the
/// bus error and no further action.
pub proof fn lemma_bus_failure<E>(sequencer: Sequencer<E>, error: E, released: bool)
    requires
        sequencer.stage == Stage::Transfer,
        !sequencer.script.lenient,
    ensures
        ({
            let (failed, release) = sequencer.spec_resume(Event::TransferFailed(error));
            let (end, action) = failed.spec_resume(
                if released {
                    Event::PinSet
                } else {
                    Event::PinFailed
                },
            );
            &&& release == Action::<[u8; 5], E>::SetChipSelect(Level::High)
            &&& action == Action::<[u8; 5], E>::Done(Err(Error::Spi(error)))
            &&& end.spec_is_idle()
            &&& failed.reply == sequencer.reply
        }),
{
}

/// A chip-select pin that cannot be driven ends an operation that is not
/// lenient with `PinError`. Where the pin failed to go low, the datagram is not
/// transferred, and the pin is still asked high before the operation ends.
pub proof fn lemma_pin_failure<E>(sequencer: Sequencer<E>, released: bool)
    requires
        sequencer.consistent(),
        !sequencer.script.lenient,
    ensures
        sequencer.stage == Stage::Select ==> ({
            let (failed, release) = sequencer.spec_resume(Event::PinFailed);
            let (end, action) = failed.spec_resume(
                if released {
                    Event::PinSet
                } else {
                    Event::PinFailed
                },
            );
            &&& release == Action::<[u8; 5], E>::SetChipSelect(Level::High)
            &&& action == Action::<[u8; 5], E>::Done(Err(Error::PinError))
            &&& end.spec_is_idle()
        }),
        sequencer.stage == Stage::Release && sequencer.failure is None ==> ({
            let (end, action) = sequencer.spec_resume(Event::PinFailed);
            &&& action == Action::<[u8; 5], E>::Done(Err(Error::PinError))
            &&& end.spec_is_idle()
        }),
        sequencer.stage == Stage::Gate ==> ({
            let (end, action) = sequencer.spec_resume(Event::PinFailed);
            &&& action == Action::<[u8; 5], E>::Done(Err(Error::PinError))
            &&& end.spec_is_idle()
        }),
{
}

/// An operation ends only in answer to the release of chip select, or to the
/// enable pin before any exchange was entered: the sequencer never reports the
/// end of an operation while it has chip select low. Nor does it ask for a
/// word while it has chip select low.
pub proof fn lemma_released_at_end<E>(sequencer: Sequencer<E>, event: Event<E>)
    requires
        !sequencer.spec_is_idle(),
    ensures
        ({
            let (next, action) = sequencer.spec_resume(event);
            &&& action is Done <==> next.spec_is_idle()
            &&& action is Done ==> sequencer.stage == Stage::Release || sequencer.stage
                == Stage::Gate
            &&& action is Done ==> sequencer.awaited() == Action::<[u8; 5], E>::SetChipSelect(
                Level::High,
            ) || sequencer.awaited() is SetEnable
            &&& action is Scale ==> sequencer.stage == Stage::Release || sequencer.stage
                == Stage::Gate || sequencer.stage == Stage::Scale
            &&& next.stage == Stage::Gate ==> sequencer.stage == Stage::Gate && next == sequencer
            &&& next.script == sequencer.script
        }),
{
}

/// A lenient operation passes over every failure: it carries out all its
/// exchanges whatever is reported, and ends with a reply, never with an error.
pub proof fn lemma_lenient_never_fails<E>(sequencer: Sequencer<E>, event: Event<E>)
    requires
        sequencer.consistent(),
        !sequencer.spec_is_idle(),
        sequencer.script.lenient,
    ensures
        ({
            let (next, action) = sequencer.spec_resume(event);
            &&& next.failure is None
            &&& action is Done ==> action->Done_0 is Ok
            &&& sequencer.stage == Stage::Transfer && event is TransferFailed ==> next.reply
                == sequencer.reply
        }),
{
}

/// A register write is one exchange. Its datagram is the register's address
/// with the top bit set, followed by the data word, most significant byte
/// first. The answer is the packet of that exchange, with the datagram sent as
/// its diagnostic bytes.
pub proof fn lemma_write_conversation<E>(driver: Tmc5160<E>, addr: u8, data: u32, reply: [u8; 5])
    requires
        driver.spec_is_idle(),
    ensures
        ({
            let sent = Datagram::spec_write(addr, data);
            let (d0, a0) = driver.spec_begin(Request::Write(addr, data));
            let (d1, a1) = d0.spec_resume(Event::PinSet);
            let (d2, a2) = d1.spec_resume(Event::Transferred(reply));
            let (d3, a3) = d2.spec_resume(Event::PinSet);
            &&& sent.bytes() == seq![(addr | 0x80) as u8] + be_bytes(data)
            &&& a0 == Action::<Reply, E>::SetChipSelect(Level::Low)
            &&& a1 == Action::<Reply, E>::Transfer(sent.spec_to_bytes())
            &&& a2 == Action::<Reply, E>::SetChipSelect(Level::High)
            &&& a3 == Action::<Reply, E>::Done(
                Ok(Reply::Packet(DataPacket::spec_decode(reply, sent.spec_to_bytes()))),
            )
            &&& d3.spec_is_idle()
            &&& d3.status == driver.status
        }),
{
    let request = Request::Write(addr, data);
    request.lemma_script_datagrams(driver.attached, driver.inverted, 0);
}

/// A register read is two exchanges with the same datagram: the register's
/// address with the top bit clear, followed by four zero bytes. What the first
/// exchange brings is dropped; the answer is made of the reply to the second
/// exchange alone.
pub proof fn lemma_read_conversation<E>(
    driver: Tmc5160<E>,
    addr: u8,
    decode: Decode,
    stale: [u8; 5],
    reply: [u8; 5],
)
    requires
        driver.spec_is_idle(),
    ensures
        ({
            let sent = Datagram::spec_read(addr);
            let request = Request::Read(addr, decode);
            let (d0, a0) = driver.spec_begin(request);
            let (d1, a1) = d0.spec_resume(Event::PinSet);
            let (d2, a2) = d1.spec_resume(Event::Transferred(stale));
            let (d3, a3) = d2.spec_resume(Event::PinSet);
            let (d4, a4) = d3.spec_resume(Event::PinSet);
            let (d5, a5) = d4.spec_resume(Event::Transferred(reply));
            let (d6, a6) = d5.spec_resume(Event::PinSet);
            &&& sent.bytes() == seq![(addr & 0x7F) as u8, 0u8, 0u8, 0u8, 0u8]
            &&& a0 == Action::<Reply, E>::SetChipSelect(Level::Low)
            &&& a1 == Action::<Reply, E>::Transfer(sent.spec_to_bytes())
            &&& a2 == Action::<Reply, E>::SetChipSelect(Level::High)
            &&& a3 == Action::<Reply, E>::SetChipSelect(Level::Low)
            &&& a4 == Action::<Reply, E>::Transfer(sent.spec_to_bytes())
            &&& a5 == Action::<Reply, E>::SetChipSelect(Level::High)
            &&& a6 == Action::<Reply, E>::Done(
                Ok(decode.spec_apply(DataPacket::spec_decode(reply, reply), driver.context)),
            )
            &&& d6.spec_is_idle()
            &&& d6.status == (if decode.spec_keeps_status() {
                DataPacket::spec_decode(reply, reply).status
            } else {
                driver.status
            })
        }),
{
    let request = Request::Read(addr, decode);
    request.lemma_script_datagrams(driver.attached, driver.inverted, 0);
    assert(Datagram::spec_read(addr).bytes() =~= seq![(addr & 0x7F) as u8, 0u8, 0u8, 0u8, 0u8]);
}

/// Setting the acceleration writes the same value to the second acceleration,
/// the first deceleration, the first acceleration and the second deceleration,
/// in that order, each in an exchange of its own. The answer is the packet of
/// the last exchange, and its status byte is kept.
pub proof fn lemma_set_acceleration_conversation<E>(
    driver: Tmc5160<E>,
    ticks: u32,
    r0: [u8; 5],
    r1: [u8; 5],
    r2: [u8; 5],
    r3: [u8; 5],
)
    requires
        driver.spec_is_idle(),
    ensures
        ({
            let amax = Datagram::spec_write(Registers::AMAX.spec_addr(), ticks);
            let dmax = Datagram::spec_write(Registers::DMAX.spec_addr(), ticks);
            let a1 = Datagram::spec_write(Registers::A1.spec_addr(), ticks);
            let d1 = Datagram::spec_write(Registers::D1.spec_addr(), ticks);
            let (s0, select0) = driver.spec_begin(Request::SetAcceleration(ticks));
            let (s1, transfer0) = s0.spec_resume(Event::PinSet);
            let (s2, release0) = s1.spec_resume(Event::Transferred(r0));
            let (s3, select1) = s2.spec_resume(Event::PinSet);
            let (s4, transfer1) = s3.spec_resume(Event::PinSet);
            let (s5, release1) = s4.spec_resume(Event::Transferred(r1));
            let (s6, select2) = s5.spec_resume(Event::PinSet);
            let (s7, transfer2) = s6.spec_resume(Event::PinSet);
            let (s8, release2) = s7.spec_resume(Event::Transferred(r2));
            let (s9, select3) = s8.spec_resume(Event::PinSet);
            let (s10, transfer3) = s9.spec_resume(Event::PinSet);
            let (s11, release3) = s10.spec_resume(Event::Transferred(r3));
            let (s12, done) = s11.spec_resume(Event::PinSet);
            &&& Request::SetAcceleration(ticks).datagrams(0) == seq![amax, dmax, a1, d1]
            &&& transfer0 == Action::<Reply, E>::Transfer(amax.spec_to_bytes())
            &&& transfer1 == Action::<Reply, E>::Transfer(dmax.spec_to_bytes())
            &&& transfer2 == Action::<Reply, E>::Transfer(a1.spec_to_bytes())
            &&& transfer3 == Action::<Reply, E>::Transfer(d1.spec_to_bytes())
            &&& select0 == Action::<Reply, E>::SetChipSelect(Level::Low) && select1 == select0
                && select2 == select0 && select3 == select0
            &&& release0 == Action::<Reply, E>::SetChipSelect(Level::High) && release1
                == release0 && release2 == release0 && release3 == release0
            &&& done == Action::<Reply, E>::Done(
                Ok(Reply::Packet(DataPacket::spec_decode(r3, d1.spec_to_bytes()))),
            )
            &&& s12.spec_is_idle()
            &&& s12.status == DataPacket::spec_decode(r3, d1.spec_to_bytes()).status
        }),
{
    let request = Request::SetAcceleration(ticks);
    request.lemma_script_datagrams(driver.attached, driver.inverted, 0);
}

/// Setting the origin writes zero to the actual position, then to the target
/// position. The answer is the packet of the second exchange, and its status
/// byte is kept.
pub proof fn lemma_set_home_conversation<E>(driver: Tmc5160<E>, r0: [u8; 5], r1: [u8; 5])
    requires
        driver.spec_is_idle(),
    ensures
        ({
            let actual = Datagram::spec_write(Registers::XACTUAL.spec_addr(), 0);
            let target = Datagram::spec_write(Registers::XTARGET.spec_addr(), 0);
            let (s0, select0) = driver.spec_begin(Request::SetHome);
            let (s1, transfer0) = s0.spec_resume(Event::PinSet);
            let (s2, release0) = s1.spec_resume(Event::Transferred(r0));
            let (s3, select1) = s2.spec_resume(Event::PinSet);
            let (s4, transfer1) = s3.spec_resume(Event::PinSet);
            let (s5, release1) = s4.spec_resume(Event::Transferred(r1));
            let (s6, done) = s5.spec_resume(Event::PinSet);
            &&& select0 == Action::<Reply, E>::SetChipSelect(Level::Low) && select1 == select0
            &&& transfer0 == Action::<Reply, E>::Transfer(actual.spec_to_bytes())
            &&& transfer1 == Action::<Reply, E>::Transfer(target.spec_to_bytes())
            &&& release0 == Action::<Reply, E>::SetChipSelect(Level::High) && release1
                == release0
            &&& done == Action::<Reply, E>::Done(
                Ok(Reply::Packet(DataPacket::spec_decode(r1, target.spec_to_bytes()))),
            )
            &&& s6.spec_is_idle()
            &&& s6.status == DataPacket::spec_decode(r1, target.spec_to_bytes()).status
        }),
{
    Request::SetHome.lemma_script_datagrams(driver.attached, driver.inverted, 0);
}

/// A move switches the motor on before anything is sent: with an enable pin
/// attached, the pin is driven to its active level first, and only when that
/// has gone well is the target position written. If the pin cannot be driven,
/// the move ends with `PinError` and nothing is sent. Without an enable pin the
/// write comes first.
pub proof fn lemma_move_to_conversation<E>(driver: Tmc5160<E>, target: u32, reply: [u8; 5])
    requires
        driver.spec_is_idle(),
    ensures
        driver.attached ==> ({
            let sent = Datagram::spec_write(Registers::XTARGET.spec_addr(), target);
            let (s0, enable) = driver.spec_begin(Request::MoveTo(target));
            let (s1, select) = s0.spec_resume(Event::PinSet);
            let (s2, transfer) = s1.spec_resume(Event::PinSet);
            let (s3, release) = s2.spec_resume(Event::Transferred(reply));
            let (s4, done) = s3.spec_resume(Event::PinSet);
            let (f1, failed) = s0.spec_resume(Event::PinFailed);
            &&& enable == Action::<Reply, E>::SetEnable(spec_enable_level(driver.inverted))
            &&& select == Action::<Reply, E>::SetChipSelect(Level::Low)
            &&& transfer == Action::<Reply, E>::Transfer(sent.spec_to_bytes())
            &&& release == Action::<Reply, E>::SetChipSelect(Level::High)
            &&& done == Action::<Reply, E>::Done(
                Ok(Reply::Packet(DataPacket::spec_decode(reply, sent.spec_to_bytes()))),
            )
            &&& s4.status == DataPacket::spec_decode(reply, sent.spec_to_bytes()).status
            &&& failed == Action::<Reply, E>::Done(Err(Error::PinError))
            &&& f1.spec_is_idle()
        }),
        !driver.attached ==> driver.spec_begin(Request::MoveTo(target)).1 == Action::<
            Reply,
            E,
        >::SetChipSelect(Level::Low),
{
    Request::MoveTo(target).lemma_script_datagrams(driver.attached, driver.inverted, 0);
}

/// Nothing of the driver but its operation in progress differs between the two
/// states: the kept status and bytes, the configuration, the remembered
/// maximum velocity and the register copies are the same.
pub open spec fn untouched<E>(now: Tmc5160<E>, before: Tmc5160<E>) -> bool {
    now == (Tmc5160 { request: now.request, sequencer: now.sequencer, ..before })
}

/// A stop in progress on what was `driver`: nothing but the operation differs,
/// and the operation, which is not lenient, stands at the given stage of the
/// given exchange, with the given word supplied and no failure kept.
pub open spec fn stopping<E>(
    now: Tmc5160<E>,
    driver: Tmc5160<E>,
    stage: Stage,
    index: int,
    word: u32,
) -> bool {
    &&& untouched(now, driver)
    &&& now.request == Request::Stop
    &&& now.sequencer.script == Request::Stop.spec_script(driver.attached, driver.inverted)
    &&& !now.sequencer.script.lenient
    &&& now.sequencer.stage == stage
    &&& now.sequencer.index == index
    &&& now.sequencer.word == word
    &&& now.sequencer.failure is None
}

/// How a stop begins. With an enable pin attached, the pin is driven to its
/// inactive level first; if that fails the stop ends with `PinError` and
/// nothing is sent, and if it goes well chip select is asked low for the first
/// exchange. Without an enable pin the first exchange is entered at once.
/// The five datagrams of a stop are the writes of zero to the start velocity
/// and to the maximum velocity, two reads of the actual position, and the
/// write of the word that the caller supplies to the target position.
pub proof fn lemma_stop_begins<E>(driver: Tmc5160<E>, word: u32)
    requires
        driver.spec_is_idle(),
    ensures
        Request::Stop.datagrams(word) == seq![
            Datagram::spec_write(Registers::VSTART.spec_addr(), 0),
            Datagram::spec_write(Registers::VMAX.spec_addr(), 0),
            Datagram::spec_read(Registers::XACTUAL.spec_addr()),
            Datagram::spec_read(Registers::XACTUAL.spec_addr()),
            Datagram::spec_write(Registers::XTARGET.spec_addr(), word),
        ],
        driver.attached ==> ({
            let (begun, first) = driver.spec_begin(Request::Stop);
            let (s0, select) = begun.spec_resume(Event::PinSet);
            let (end, failed) = begun.spec_resume(Event::PinFailed);
            &&& first == Action::<Reply, E>::SetEnable(spec_disable_level(driver.inverted))
            &&& select == Action::<Reply, E>::SetChipSelect(Level::Low)
            &&& stopping(s0, driver, Stage::Select, 0, 0)
            &&& failed == Action::<Reply, E>::Done(Err(Error::PinError))
            &&& end.spec_is_idle() && untouched(end, driver)
        }),
        !driver.attached ==> ({
            let (s0, select) = driver.spec_begin(Request::Stop);
            &&& select == Action::<Reply, E>::SetChipSelect(Level::Low)
            &&& stopping(s0, driver, Stage::Select, 0, 0)
        }),
{
    Request::Stop.lemma_script_datagrams(driver.attached, driver.inverted, word);
}

/// Stopping is one operation of five exchanges. From the first chip select
/// on, zero is written to the start velocity and to the maximum velocity, and
/// the actual position is read with two exchanges. The caller is asked for the
/// target word of the position that the second read brings, and that word is
/// written to the target position. The answer is the packet of this fifth
/// exchange, and its status byte is kept.
///
/// Until then nothing of the driver changes, and each of the five transfers
/// is awaited in an operation that is not lenient: by `lemma_failure_propagates`
/// a bus error in any of them releases chip select and ends the stop with that
/// error, with nothing more sent and nothing of the driver changed.
#[verifier::rlimit(60)]
pub proof fn lemma_stop_conversation<E>(
    driver: Tmc5160<E>,
    s0: Tmc5160<E>,
    r0: [u8; 5],
    r1: [u8; 5],
    stale: [u8; 5],
    read: [u8; 5],
    word: u32,
    reply: [u8; 5],
)
    requires
        stopping(s0, driver, Stage::Select, 0, 0),
    ensures
        ({
            let vstart = Datagram::spec_write(Registers::VSTART.spec_addr(), 0);
            let vmax = Datagram::spec_write(Registers::VMAX.spec_addr(), 0);
            let xactual = Datagram::spec_read(Registers::XACTUAL.spec_addr());
            let xtarget = Datagram::spec_write(Registers::XTARGET.spec_addr(), word);
            let (s1, transfer0) = s0.spec_resume(Event::PinSet);
            let (s2, release0) = s1.spec_resume(Event::Transferred(r0));
            let (s3, select1) = s2.spec_resume(Event::PinSet);
            let (s4, transfer1) = s3.spec_resume(Event::PinSet);
            let (s5, release1) = s4.spec_resume(Event::Transferred(r1));
            let (s6, select2) = s5.spec_resume(Event::PinSet);
            let (s7, transfer2) = s6.spec_resume(Event::PinSet);
            let (s8, release2) = s7.spec_resume(Event::Transferred(stale));
            let (s9, select3) = s8.spec_resume(Event::PinSet);
            let (s10, transfer3) = s9.spec_resume(Event::PinSet);
            let (s11, release3) = s10.spec_resume(Event::Transferred(read));
            let (s12, ask) = s11.spec_resume(Event::PinSet);
            let (s13, select4) = s12.spec_resume(Event::Scaled(word));
            let (s14, transfer4) = s13.spec_resume(Event::PinSet);
            let (s15, release4) = s14.spec_resume(Event::Transferred(reply));
            let (s16, done) = s15.spec_resume(Event::PinSet);
            let packet = DataPacket::spec_decode(reply, xtarget.spec_to_bytes());
            &&& transfer0 == Action::<Reply, E>::Transfer(vstart.spec_to_bytes())
            &&& transfer1 == Action::<Reply, E>::Transfer(vmax.spec_to_bytes())
            &&& transfer2 == Action::<Reply, E>::Transfer(xactual.spec_to_bytes())
            &&& transfer3 == Action::<Reply, E>::Transfer(xactual.spec_to_bytes())
            &&& ask == Action::<Reply, E>::Scale(spec_position_of(read))
            &&& transfer4 == Action::<Reply, E>::Transfer(xtarget.spec_to_bytes())
            &&& select1 == Action::<Reply, E>::SetChipSelect(Level::Low) && select2 == select1
                && select3 == select1 && select4 == select1
            &&& release0 == Action::<Reply, E>::SetChipSelect(Level::High) && release1
                == release0 && release2 == release0 && release3 == release0 && release4
                == release0
            &&& done == Action::<Reply, E>::Done(Ok(Reply::Packet(packet)))
            &&& s16.spec_is_idle()
            &&& s16.status == packet.status
            &&& s16 == (Tmc5160 { status: packet.status, sequencer: s16.sequencer, ..s15 })
            &&& stopping(s1, driver, Stage::Transfer, 0, 0)
            &&& stopping(s4, driver, Stage::Transfer, 1, 0)
            &&& stopping(s7, driver, Stage::Transfer, 2, 0)
            &&& stopping(s10, driver, Stage::Transfer, 3, 0)
            &&& stopping(s14, driver, Stage::Transfer, 4, word)
            &&& stopping(s15, driver, Stage::Release, 4, word)
        }),
{
    Request::Stop.lemma_script_datagrams(driver.attached, driver.inverted, word);
    Request::Stop.lemma_script_datagrams(driver.attached, driver.inverted, 0);
    let (s1, transfer0) = s0.spec_resume(Event::PinSet);
    assert(stopping(s1, driver, Stage::Transfer, 0, 0));
    let (s2, release0) = s1.spec_resume(Event::Transferred(r0));
    assert(stopping(s2, driver, Stage::Release, 0, 0));
    let (s3, select1) = s2.spec_resume(Event::PinSet);
    assert(stopping(s3, driver, Stage::Select, 1, 0));
    let (s4, transfer1) = s3.spec_resume(Event::PinSet);
    assert(stopping(s4, driver, Stage::Transfer, 1, 0));
    let (s5, release1) = s4.spec_resume(Event::Transferred(r1));
    assert(stopping(s5, driver, Stage::Release, 1, 0));
    let (s6, select2) = s5.spec_resume(Event::PinSet);
    assert(stopping(s6, driver, Stage::Select, 2, 0));
    let (s7, transfer2) = s6.spec_resume(Event::PinSet);
    assert(stopping(s7, driver, Stage::Transfer, 2, 0));
    let (s8, release2) = s7.spec_resume(Event::Transferred(stale));
    assert(stopping(s8, driver, Stage::Release, 2, 0));
    let (s9, select3) = s8.spec_resume(Event::PinSet);
    assert(stopping(s9, driver, Stage::Select, 3, 0));
    let (s10, transfer3) = s9.spec_resume(Event::PinSet);
    assert(stopping(s10, driver, Stage::Transfer, 3, 0));
    let (s11, release3) = s10.spec_resume(Event::Transferred(read));
    assert(stopping(s11, driver, Stage::Release, 3, 0) && s11.sequencer.reply == read);
    let (s12, ask) = s11.spec_resume(Event::PinSet);
    assert(stopping(s12, driver, Stage::Scale, 4, 0) && s12.sequencer.reply == read);
    let (s13, select4) = s12.spec_resume(Event::Scaled(word));
    assert(stopping(s13, driver, Stage::Select, 4, word));
    let (s14, transfer4) = s13.spec_resume(Event::PinSet);
    assert(stopping(s14, driver, Stage::Transfer, 4, word));
    let (s15, release4) = s14.spec_resume(Event::Transferred(reply));
    assert(stopping(s15, driver, Stage::Release, 4, word) && s15.sequencer.reply == reply);
}

/// A bus error in any of the five transfers of a stop ends the stop: chip
/// select is released, the stop ends with that error whether or not the
/// release goes well, nothing more is sent, and nothing of the driver has
/// changed since the stop was started; what was written before stays written.
pub proof fn lemma_stop_failure<E>(
    driver: Tmc5160<E>,
    now: Tmc5160<E>,
    index: int,
    word: u32,
    error: E,
    released: bool,
)
    requires
        stopping(now, driver, Stage::Transfer, index, word),
    ensures
        ({
            let (failed, release) = now.spec_resume(Event::TransferFailed(error));
            let (end, action) = failed.spec_resume(
                if released {
                    Event::PinSet
                } else {
                    Event::PinFailed
                },
            );
            &&& release == Action::<Reply, E>::SetChipSelect(Level::High)
            &&& action == Action::<Reply, E>::Done(Err(Error::Spi(error)))
            &&& end.spec_is_idle()
            &&& untouched(end, driver)
            &&& end.status == driver.status && end.v_max == driver.v_max
        }),
{
}

/// The first failure ends an operation of the driver and nothing more is sent:
/// after a bus error in any exchange of an operation that is not lenient, chip
/// select is released, the operation ends with that error, and the driver's
/// kept status and registers are as they were.
pub proof fn lemma_failure_propagates<E>(driver: Tmc5160<E>, error: E, released: bool)
    requires
        driver.sequencer.stage == Stage::Transfer,
        !driver.sequencer.script.lenient,
    ensures
        ({
            let (failed, release) = driver.spec_resume(Event::TransferFailed(error));
            let (end, action) = failed.spec_resume(
                if released {
                    Event::PinSet
                } else {
                    Event::PinFailed
                },
            );
            &&& release == Action::<Reply, E>::SetChipSelect(Level::High)
            &&& action == Action::<Reply, E>::Done(Err(Error::Spi(error)))
            &&& end.spec_is_idle()
            &&& end == (Tmc5160 { sequencer: end.sequencer, ..driver })
        }),
{
}

} // verus!
