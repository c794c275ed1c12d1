use tmc5160::registers::{Registers, SpiStatus};
use tmc5160::request::{Decode, Reply, Request};
use tmc5160::sequencer::{Action, Event, Level, Sequencer};
use tmc5160::units::MotorContext;
use tmc5160::{mode, DataPacket, Datagram, Error, Tmc5160};

#[derive(Clone, Copy, Debug, PartialEq, Eq)]
struct BusFault(u8);

#[derive(Clone, Copy, Debug, PartialEq, Eq)]
enum Done {
    ChipSelect(Level),
    Enable(Level),
    Transfer([u8; 5]),
    Scale(i32),
}

struct Bench {
    replies: Vec<Result<[u8; 5], BusFault>>,
    next_reply: usize,
    chip_select: Level,
    enable: Option<Level>,
    chip_select_low_fails: bool,
    chip_select_high_fails: bool,
    enable_fails: bool,
    step_count: f32,
    done: Vec<Done>,
}

fn bench(replies: Vec<Result<[u8; 5], BusFault>>) -> Bench {
    Bench {
        replies,
        next_reply: 0,
        chip_select: Level::High,
        enable: None,
        chip_select_low_fails: false,
        chip_select_high_fails: false,
        enable_fails: false,
        step_count: 256.0,
        done: Vec::new(),
    }
}

fn carry_out(bench: &mut Bench, action: &Action<Reply, BusFault>) -> Event<BusFault> {
    match action {
        Action::SetChipSelect(level) => {
            bench.done.push(Done::ChipSelect(*level));
            let fails = match level {
                Level::Low => bench.chip_select_low_fails,
                Level::High => bench.chip_select_high_fails,
            };
            if fails {
                Event::PinFailed
            } else {
                bench.chip_select = *level;
                Event::PinSet
            }
        }
        Action::SetEnable(level) => {
            bench.done.push(Done::Enable(*level));
            if bench.enable_fails {
                Event::PinFailed
            } else {
                bench.enable = Some(*level);
                Event::PinSet
            }
        }
        Action::Transfer(frame) => {
            bench.done.push(Done::Transfer(*frame));
            let reply = bench.replies[bench.next_reply];
            bench.next_reply += 1;
            match reply {
                Ok(bytes) => Event::Transferred(bytes),
                Err(fault) => Event::TransferFailed(fault),
            }
        }
        Action::Scale(steps) => {
            assert_eq!(bench.chip_select, Level::High);
            bench.done.push(Done::Scale(*steps));
            Event::Scaled((*steps as f32 / bench.step_count).to_bits())
        }
        Action::Done(_) => unreachable!(),
    }
}

fn run(
    bench: &mut Bench,
    driver: &mut Tmc5160<BusFault>,
    first: Action<Reply, BusFault>,
) -> Result<Reply, Error<BusFault>> {
    let mut action = first;
    loop {
        if let Action::Done(result) = action {
            assert!(driver.is_idle());
            return result;
        }
        assert!(!driver.is_idle());
        let event = carry_out(bench, &action);
        action = driver.resume(event);
    }
}

fn exchange(frame: [u8; 5]) -> Vec<Done> {
    vec![Done::ChipSelect(Level::Low), Done::Transfer(frame), Done::ChipSelect(Level::High)]
}

fn exchanges(frames: &[[u8; 5]]) -> Vec<Done> {
    let mut all = Vec::new();
    for frame in frames {
        all.extend(exchange(*frame));
    }
    all
}

fn packet(reply: Result<Reply, Error<BusFault>>) -> DataPacket {
    match reply {
        Ok(Reply::Packet(packet)) => packet,
        other => panic!("no packet: {:?}", other),
    }
}

#[test]
fn bus_mode_of_the_chip() {
    let mode = mode();
    assert_eq!(mode.polarity, tmc5160::driver::Polarity::IdleHigh);
    assert_eq!(mode.phase, tmc5160::driver::Phase::CaptureOnSecondTransition);
}

#[test]
fn new_driver_is_at_rest_with_power_on_registers() {
    let driver = Tmc5160::<BusFault>::new();
    assert!(driver.is_idle());
    assert!(!driver.attached);
    assert!(!driver.inverted);
    assert_eq!(driver.status, SpiStatus::new());
    assert_eq!(driver.debug, [0; 5]);
    assert_eq!(driver.chop_conf.to_word(), 0x1041_0150);
    assert_eq!(driver.pwm_conf.to_word(), 0xC40C_001E);
    assert_eq!(driver.g_conf.to_word(), 0);
    let built = Tmc5160::<BusFault>::new().attach_en().en_inverted(true);
    assert!(built.attached);
    assert!(built.inverted);
}

#[test]
fn datagram_bytes() {
    assert_eq!(Datagram::write(0x26, 0x1234_5678).to_bytes(), [0xA6, 0x12, 0x34, 0x56, 0x78]);
    assert_eq!(Datagram::read(0x21).to_bytes(), [0x21, 0, 0, 0, 0]);
    assert_eq!(Datagram::read(0xA1).to_bytes(), [0x21, 0, 0, 0, 0]);
    assert_eq!(Datagram::write(0xA6, 1).to_bytes(), [0xA6, 0, 0, 0, 1]);
}

#[test]
fn packet_is_decoded_from_a_reply() {
    let decoded = DataPacket::decode([0x09, 0xDE, 0xAD, 0xBE, 0xEF], [1, 2, 3, 4, 5]);
    assert_eq!(decoded.status.to_byte(), 0x09);
    assert_eq!(decoded.data, 0xDEAD_BEEF);
    assert_eq!(decoded.debug, [1, 2, 3, 4, 5]);
}

#[test]
fn packet_as_text() {
    let decoded = DataPacket::decode([0x08, 0x00, 0x00, 0x00, 0x2A], [0; 5]);
    assert_eq!(decoded.to_text(), "0x8:0x2a");
    let decoded = DataPacket::decode([0x00, 0x00, 0x00, 0x00, 0x00], [0; 5]);
    assert_eq!(decoded.to_text(), "0x0:0x0");
    let decoded = DataPacket::decode([0xFF, 0xDE, 0xAD, 0xBE, 0xEF], [0; 5]);
    assert_eq!(decoded.to_text(), "0xff:0xdeadbeef");
    let decoded = DataPacket::decode([0x10, 0x00, 0x01, 0x00, 0x0A], [0; 5]);
    assert_eq!(decoded.to_text(), "0x10:0x1000a");
}

#[test]
fn write_sends_one_datagram_with_the_top_bit_set() {
    let mut driver = Tmc5160::<BusFault>::new();
    let mut bench = bench(vec![Ok([0x08, 0x00, 0x00, 0x00, 0x2A])]);
    let mut value = [0x12, 0x34, 0x56, 0x78];
    let first = driver.write_register(Registers::VMAX, &mut value);
    assert_eq!(value, [0x12, 0x34, 0x56, 0x78]);
    let answer = packet(run(&mut bench, &mut driver, first));
    assert_eq!(bench.done, exchange([0xA7, 0x12, 0x34, 0x56, 0x78]));
    assert_eq!(answer.status.to_byte(), 0x08);
    assert_eq!(answer.data, 0x2A);
    assert_eq!(answer.debug, [0xA7, 0x12, 0x34, 0x56, 0x78]);
    assert_eq!(bench.chip_select, Level::High);
    assert_eq!(driver.status.to_byte(), 0);
}

#[test]
fn write_answers_with_the_old_content_not_the_new() {
    let mut driver = Tmc5160::<BusFault>::new();
    let mut bench = bench(vec![Ok([0x00, 0x00, 0x00, 0x00, 0x07])]);
    let first = driver.set_vstart(0x99);
    let answer = packet(run(&mut bench, &mut driver, first));
    assert_eq!(answer.data, 0x07);
    assert_ne!(answer.data, 0x99);
}

#[test]
fn read_sends_two_datagrams_and_answers_with_the_second_reply() {
    let mut driver = Tmc5160::<BusFault>::new();
    let mut bench = bench(vec![
        Ok([0x01, 0x11, 0x11, 0x11, 0x11]),
        Ok([0x08, 0x00, 0x01, 0x02, 0x03]),
    ]);
    let first = driver.read_register(Registers::XACTUAL);
    let answer = packet(run(&mut bench, &mut driver, first));
    assert_eq!(bench.done, exchanges(&[[0x21, 0, 0, 0, 0], [0x21, 0, 0, 0, 0]]));
    assert_eq!(answer.status.to_byte(), 0x08);
    assert_eq!(answer.data, 0x0001_0203);
    assert_eq!(answer.debug, [0x08, 0x00, 0x01, 0x02, 0x03]);
    assert_eq!(bench.chip_select, Level::High);
    assert_eq!(bench.next_reply, 2);
}

#[test]
fn consecutive_reads_take_two_exchanges_each() {
    let mut driver = Tmc5160::<BusFault>::new();
    let mut bench = bench(vec![
        Ok([0, 0, 0, 0, 1]),
        Ok([0, 0, 0, 0, 2]),
        Ok([0, 0, 0, 0, 3]),
        Ok([0, 0, 0, 0, 4]),
    ]);
    let first = driver.read_offset();
    assert_eq!(run(&mut bench, &mut driver, first), Ok(Reply::Word(2)));
    let first = driver.read_tstep();
    assert_eq!(run(&mut bench, &mut driver, first), Ok(Reply::Word(4)));
    assert_eq!(
        bench.done,
        exchanges(&[[0x0C, 0, 0, 0, 0], [0x0C, 0, 0, 0, 0], [0x12, 0, 0, 0, 0], [0x12, 0, 0, 0, 0]])
    );
}

#[test]
fn bus_failure_in_a_write_gives_the_error_and_releases_chip_select() {
    let mut driver = Tmc5160::<BusFault>::new();
    let mut bench = bench(vec![Err(BusFault(3))]);
    let first = driver.set_vmax(5);
    assert_eq!(run(&mut bench, &mut driver, first), Err(Error::Spi(BusFault(3))));
    assert_eq!(bench.done, exchange([0xA7, 0, 0, 0, 5]));
    assert_eq!(bench.chip_select, Level::High);
    assert!(driver.is_idle());
}

#[test]
fn bus_failure_in_the_first_exchange_of_a_read_ends_the_read() {
    let mut driver = Tmc5160::<BusFault>::new();
    let mut bench = bench(vec![Err(BusFault(1)), Ok([0, 0, 0, 0, 1])]);
    let first = driver.read_register(Registers::GCONF);
    assert_eq!(run(&mut bench, &mut driver, first), Err(Error::Spi(BusFault(1))));
    assert_eq!(bench.done, exchange([0x00, 0, 0, 0, 0]));
    assert_eq!(bench.next_reply, 1);
    assert_eq!(bench.chip_select, Level::High);
}

#[test]
fn bus_failure_in_the_second_exchange_of_a_read_ends_the_read() {
    let mut driver = Tmc5160::<BusFault>::new();
    let mut bench = bench(vec![Ok([0x0F, 0, 0, 0, 1]), Err(BusFault(2))]);
    let first = driver.read_drv_status();
    assert_eq!(run(&mut bench, &mut driver, first), Err(Error::Spi(BusFault(2))));
    assert_eq!(bench.done, exchanges(&[[0x6F, 0, 0, 0, 0], [0x6F, 0, 0, 0, 0]]));
    assert_eq!(bench.chip_select, Level::High);
    assert_eq!(driver.status.to_byte(), 0);
}

#[test]
fn bus_failure_is_not_hidden_by_a_failing_release() {
    let mut driver = Tmc5160::<BusFault>::new();
    let mut bench = bench(vec![Err(BusFault(9))]);
    bench.chip_select_high_fails = true;
    let first = driver.set_amax(1);
    assert_eq!(run(&mut bench, &mut driver, first), Err(Error::Spi(BusFault(9))));
    assert_eq!(bench.done, exchange([0xA6, 0, 0, 0, 1]));
}

#[test]
fn chip_select_that_cannot_go_low_gives_pin_error_without_a_transfer() {
    let mut driver = Tmc5160::<BusFault>::new();
    let mut bench = bench(vec![Ok([0, 0, 0, 0, 0])]);
    bench.chip_select_low_fails = true;
    let first = driver.set_amax(1);
    assert_eq!(run(&mut bench, &mut driver, first), Err(Error::PinError));
    assert_eq!(bench.done, vec![Done::ChipSelect(Level::Low), Done::ChipSelect(Level::High)]);
    assert_eq!(bench.next_reply, 0);
    assert_eq!(bench.chip_select, Level::High);
}

#[test]
fn chip_select_that_cannot_go_high_gives_pin_error() {
    let mut driver = Tmc5160::<BusFault>::new();
    let mut bench = bench(vec![Ok([0, 0, 0, 0, 0]), Ok([0, 0, 0, 0, 0])]);
    bench.chip_select_high_fails = true;
    let first = driver.read_register(Registers::GCONF);
    assert_eq!(run(&mut bench, &mut driver, first), Err(Error::PinError));
    assert_eq!(bench.done, exchange([0x00, 0, 0, 0, 0]));
    assert_eq!(bench.next_reply, 1);
}

#[test]
fn set_acceleration_writes_four_registers_in_order() {
    let mut driver = Tmc5160::<BusFault>::new();
    let mut bench = bench(vec![
        Ok([0x01, 0, 0, 0, 1]),
        Ok([0x02, 0, 0, 0, 2]),
        Ok([0x03, 0, 0, 0, 3]),
        Ok([0x04, 0, 0, 0, 4]),
    ]);
    let first = driver.set_acceleration_raw(0x0000_0F45);
    let answer = packet(run(&mut bench, &mut driver, first));
    assert_eq!(
        bench.done,
        exchanges(&[
            [0xA6, 0x00, 0x00, 0x0F, 0x45],
            [0xA8, 0x00, 0x00, 0x0F, 0x45],
            [0xA4, 0x00, 0x00, 0x0F, 0x45],
            [0xAA, 0x00, 0x00, 0x0F, 0x45],
        ])
    );
    assert_eq!(answer.data, 4);
    assert_eq!(answer.status.to_byte(), 0x04);
    assert_eq!(answer.debug, [0xAA, 0x00, 0x00, 0x0F, 0x45]);
    assert_eq!(driver.status.to_byte(), 0x04);
}

#[test]
fn set_acceleration_stops_at_the_first_failure() {
    let mut driver = Tmc5160::<BusFault>::new();
    let mut bench = bench(vec![Ok([0x01, 0, 0, 0, 1]), Err(BusFault(7)), Ok([0x03, 0, 0, 0, 3])]);
    let first = driver.set_acceleration_raw(2);
    assert_eq!(run(&mut bench, &mut driver, first), Err(Error::Spi(BusFault(7))));
    assert_eq!(bench.done, exchanges(&[[0xA6, 0, 0, 0, 2], [0xA8, 0, 0, 0, 2]]));
    assert_eq!(bench.chip_select, Level::High);
    assert_eq!(driver.status.to_byte(), 0);
}

#[test]
fn set_home_writes_zero_to_actual_and_target_position() {
    let mut driver = Tmc5160::<BusFault>::new();
    let mut bench = bench(vec![Ok([0x01, 0, 0, 1, 0]), Ok([0x21, 0, 0, 2, 0])]);
    let first = driver.set_home();
    let answer = packet(run(&mut bench, &mut driver, first));
    assert_eq!(bench.done, exchanges(&[[0xA1, 0, 0, 0, 0], [0xAD, 0, 0, 0, 0]]));
    assert_eq!(answer.data, 0x200);
    assert_eq!(driver.status.to_byte(), 0x21);
}

fn stop_frames(target: [u8; 5]) -> Vec<Done> {
    exchanges(&[[0xA3, 0, 0, 0, 0], [0xA7, 0, 0, 0, 0], [0x21, 0, 0, 0, 0], [0x21, 0, 0, 0, 0], target])
}

fn stop_done(steps: i32, target: [u8; 5]) -> Vec<Done> {
    let mut done = stop_frames(target);
    done.insert(12, Done::Scale(steps));
    done
}

#[test]
fn stop_is_five_exchanges_and_answers_with_the_last_packet() {
    let mut driver = Tmc5160::<BusFault>::new();
    let mut bench = bench(vec![Ok([0, 0, 0, 0, 0]); 5]);
    let first = driver.stop();
    let answer = packet(run(&mut bench, &mut driver, first));
    assert_eq!(bench.done, stop_done(0, [0xAD, 0, 0, 0, 0]));
    assert_eq!(answer.data, 0);
    assert_eq!(answer.debug, [0xAD, 0, 0, 0, 0]);
    assert_eq!(bench.enable, None);
    assert_eq!(bench.chip_select, Level::High);
}

#[test]
fn stop_writes_the_word_that_the_caller_gives_for_the_position_read() {
    let mut driver = Tmc5160::<BusFault>::new();
    let mut bench = bench(vec![
        Ok([0x01, 0, 0, 0, 1]),
        Ok([0x02, 0, 0, 0, 2]),
        Ok([0x03, 0x7F, 0x7F, 0x7F, 0x7F]),
        Ok([0x04, 0xFF, 0xFF, 0xFF, 0x00]),
        Ok([0x28, 0, 0, 0x12, 0x34]),
    ]);
    let first = driver.stop();
    let answer = packet(run(&mut bench, &mut driver, first));
    assert_eq!(bench.done, stop_done(-256, [0xAD, 0xBF, 0x80, 0x00, 0x00]));
    assert_eq!(answer.status.to_byte(), 0x28);
    assert_eq!(answer.data, 0x1234);
    assert_eq!(answer.debug, [0xAD, 0xBF, 0x80, 0x00, 0x00]);
    assert_eq!(driver.status.to_byte(), 0x28);
}

#[test]
fn stop_takes_any_word_for_the_target() {
    let mut driver = Tmc5160::<BusFault>::new();
    let mut action = driver.stop();
    let mut frames = Vec::new();
    let result = loop {
        let event = match action {
            Action::Done(result) => break result,
            Action::SetChipSelect(_) | Action::SetEnable(_) => Event::PinSet,
            Action::Transfer(frame) => {
                frames.push(frame);
                Event::Transferred([0x10, 0x00, 0x00, 0x0A, 0x00])
            }
            Action::Scale(steps) => {
                assert_eq!(steps, 2560);
                Event::Scaled(0x4120_0000)
            }
        };
        action = driver.resume(event);
    };
    assert_eq!(frames.len(), 5);
    assert_eq!(frames[4], [0xAD, 0x41, 0x20, 0x00, 0x00]);
    assert_eq!(packet(result).debug, [0xAD, 0x41, 0x20, 0x00, 0x00]);
}

#[test]
fn stop_switches_the_motor_off_first() {
    let mut driver = Tmc5160::<BusFault>::new().attach_en();
    let mut bench = bench(vec![
        Ok([0, 0, 0, 0, 0]),
        Ok([0, 0, 0, 0, 0]),
        Ok([0, 0, 0, 0, 0]),
        Ok([0, 0, 0, 1, 0]),
        Ok([0x08, 0, 0, 0, 0]),
    ]);
    let first = driver.stop();
    assert_eq!(first, Action::SetEnable(Level::High));
    packet(run(&mut bench, &mut driver, first));
    let mut expected = vec![Done::Enable(Level::High)];
    expected.extend(stop_done(256, [0xAD, 0x3F, 0x80, 0x00, 0x00]));
    assert_eq!(bench.done, expected);
    assert_eq!(bench.enable, Some(Level::High));
    assert_eq!(driver.status.to_byte(), 0x08);
}

#[test]
fn stop_ends_when_the_enable_pin_fails() {
    let mut driver = Tmc5160::<BusFault>::new().attach_en();
    let mut bench = bench(vec![]);
    bench.enable_fails = true;
    let first = driver.stop();
    assert_eq!(run(&mut bench, &mut driver, first), Err(Error::PinError));
    assert_eq!(bench.done, vec![Done::Enable(Level::High)]);
    assert_eq!(bench.chip_select, Level::High);
}

#[test]
fn stop_ends_at_the_first_transfer_that_fails() {
    for failing in 1..=5usize {
        let mut driver = Tmc5160::<BusFault>::new();
        let first = driver.set_velocity(7);
        let mut setup = bench(vec![Ok([0x11, 0, 0, 0, 0])]);
        packet(run(&mut setup, &mut driver, first));
        let mut replies = vec![Ok([0x3F, 0, 0, 0, 0]); failing - 1];
        replies.push(Err(BusFault(failing as u8)));
        replies.push(Ok([0x3F, 0, 0, 0, 0]));
        let mut bench = bench(replies);
        let first = driver.stop();
        assert_eq!(
            run(&mut bench, &mut driver, first),
            Err(Error::Spi(BusFault(failing as u8)))
        );
        assert_eq!(bench.next_reply, failing);
        let transfers = bench.done.iter().filter(|done| matches!(done, Done::Transfer(_))).count();
        assert_eq!(transfers, failing);
        assert_eq!(bench.done.last(), Some(&Done::ChipSelect(Level::High)));
        assert_eq!(bench.chip_select, Level::High);
        assert_eq!(driver.status.to_byte(), 0x11);
        assert_eq!(driver.get_velocity_max(), 7);
        assert!(driver.is_idle());
    }
}

#[test]
fn stop_repeats_the_ask_until_a_word_comes() {
    let mut driver = Tmc5160::<BusFault>::new();
    let mut action = driver.stop();
    for _ in 0..4 {
        assert_eq!(action, Action::SetChipSelect(Level::Low));
        assert!(matches!(driver.resume(Event::PinSet), Action::Transfer(_)));
        assert_eq!(
            driver.resume(Event::Transferred([0, 0, 0, 0, 9])),
            Action::SetChipSelect(Level::High)
        );
        action = driver.resume(Event::PinSet);
    }
    assert_eq!(action, Action::Scale(9));
    assert_eq!(driver.resume(Event::PinSet), Action::Scale(9));
    assert_eq!(driver.resume(Event::PinFailed), Action::Scale(9));
    assert_eq!(driver.resume(Event::Transferred([0; 5])), Action::Scale(9));
    assert_eq!(driver.resume(Event::Scaled(5)), Action::SetChipSelect(Level::Low));
    assert_eq!(driver.resume(Event::Scaled(6)), Action::SetChipSelect(Level::Low));
    assert_eq!(driver.resume(Event::PinSet), Action::Transfer([0xAD, 0, 0, 0, 5]));
}

#[test]
fn enable_without_pin_is_over_at_once() {
    let mut driver = Tmc5160::<BusFault>::new();
    assert_eq!(driver.enable(), Action::Done(Ok(Reply::Unit)));
    assert!(driver.is_idle());
    assert_eq!(driver.disable(), Action::Done(Ok(Reply::Unit)));
    assert!(driver.is_idle());
}

#[test]
fn enable_and_disable_drive_the_pin() {
    let mut driver = Tmc5160::<BusFault>::new().attach_en();
    let mut bench = bench(vec![]);
    let first = driver.enable();
    assert_eq!(run(&mut bench, &mut driver, first), Ok(Reply::Unit));
    assert_eq!(bench.enable, Some(Level::Low));
    let first = driver.disable();
    assert_eq!(run(&mut bench, &mut driver, first), Ok(Reply::Unit));
    assert_eq!(bench.enable, Some(Level::High));
    assert_eq!(bench.done, vec![Done::Enable(Level::Low), Done::Enable(Level::High)]);
}

#[test]
fn inverted_enable_pin() {
    let mut driver = Tmc5160::<BusFault>::new().attach_en().en_inverted(true);
    let mut bench = bench(vec![]);
    let first = driver.enable();
    assert_eq!(run(&mut bench, &mut driver, first), Ok(Reply::Unit));
    assert_eq!(bench.enable, Some(Level::High));
    let first = driver.disable();
    assert_eq!(run(&mut bench, &mut driver, first), Ok(Reply::Unit));
    assert_eq!(bench.enable, Some(Level::Low));
}

#[test]
fn enable_pin_failure_gives_pin_error() {
    let mut driver = Tmc5160::<BusFault>::new().attach_en();
    let mut bench = bench(vec![]);
    bench.enable_fails = true;
    let first = driver.enable();
    assert_eq!(run(&mut bench, &mut driver, first), Err(Error::PinError));
    let first = driver.disable();
    assert_eq!(run(&mut bench, &mut driver, first), Err(Error::PinError));
}

#[test]
fn move_to_enables_then_writes_the_target() {
    let mut driver = Tmc5160::<BusFault>::new().attach_en();
    let mut bench = bench(vec![Ok([0x10, 0, 0, 0, 0])]);
    let first = driver.move_to_raw(51_200);
    let answer = packet(run(&mut bench, &mut driver, first));
    let mut expected = vec![Done::Enable(Level::Low)];
    expected.extend(exchange([0xAD, 0x00, 0x00, 0xC8, 0x00]));
    assert_eq!(bench.done, expected);
    assert_eq!(answer.debug, [0xAD, 0x00, 0x00, 0xC8, 0x00]);
    assert_eq!(driver.status.to_byte(), 0x10);
}

#[test]
fn move_to_a_negative_position() {
    let mut driver = Tmc5160::<BusFault>::new();
    let mut bench = bench(vec![Ok([0, 0, 0, 0, 0])]);
    let first = driver.move_to_raw(-256);
    packet(run(&mut bench, &mut driver, first));
    assert_eq!(bench.done, exchange([0xAD, 0xFF, 0xFF, 0xFF, 0x00]));
}

#[test]
fn move_to_sends_nothing_when_the_enable_pin_fails() {
    let mut driver = Tmc5160::<BusFault>::new().attach_en();
    let mut bench = bench(vec![Ok([0, 0, 0, 0, 0])]);
    bench.enable_fails = true;
    let first = driver.move_to_raw(1);
    assert_eq!(run(&mut bench, &mut driver, first), Err(Error::PinError));
    assert_eq!(bench.done, vec![Done::Enable(Level::Low)]);
    assert_eq!(bench.next_reply, 0);
}

#[test]
fn set_position_writes_the_actual_position() {
    let mut driver = Tmc5160::<BusFault>::new();
    let mut bench = bench(vec![Ok([0x10, 0, 0, 0, 0])]);
    let first = driver.set_position(-1);
    packet(run(&mut bench, &mut driver, first));
    assert_eq!(bench.done, exchange([0xA1, 0xFF, 0xFF, 0xFF, 0x00]));
    assert_eq!(driver.status.to_byte(), 0);
}

#[test]
fn set_velocity_raw_keeps_the_status() {
    let mut driver = Tmc5160::<BusFault>::new();
    let mut bench = bench(vec![Ok([0x18, 0, 0, 0, 0])]);
    let first = driver.set_velocity_raw(358);
    packet(run(&mut bench, &mut driver, first));
    assert_eq!(bench.done, exchange([0xA7, 0x00, 0x00, 0x01, 0x66]));
    assert_eq!(driver.status.to_byte(), 0x18);
}

#[test]
fn set_velocity_converts_and_remembers_the_speed() {
    let mut driver = Tmc5160::<BusFault>::new();
    assert_eq!(driver.get_velocity_max(), 0);
    assert_eq!(driver.v_max_raw, 0);
    let mut bench = bench(vec![Ok([0x18, 0, 0, 0, 0]), Ok([0x08, 0, 0, 0, 0])]);
    let first = driver.set_velocity(1);
    assert_eq!(driver.get_velocity_max(), 1);
    assert_eq!(driver.v_max_raw, 358);
    packet(run(&mut bench, &mut driver, first));
    assert_eq!(driver.status.to_byte(), 0x18);
    let first = driver.set_velocity(1000);
    packet(run(&mut bench, &mut driver, first));
    assert_eq!(driver.get_velocity_max(), 1000);
    assert_eq!(
        bench.done,
        exchanges(&[[0xA7, 0x00, 0x00, 0x01, 0x66], [0xA7, 0x00, 0x05, 0x76, 0x1A]])
    );
}

#[test]
fn set_velocity_remembers_the_speed_even_if_the_write_fails() {
    let mut driver = Tmc5160::<BusFault>::new();
    let mut bench = bench(vec![Err(BusFault(1))]);
    let first = driver.set_velocity(500);
    assert_eq!(run(&mut bench, &mut driver, first), Err(Error::Spi(BusFault(1))));
    assert_eq!(driver.get_velocity_max(), 500);
}

#[test]
fn set_velocity_raw_remembers_the_speed_in_hertz() {
    let mut driver = Tmc5160::<BusFault>::new();
    let mut bench = bench(vec![Ok([0, 0, 0, 0, 0]); 3]);
    let first = driver.set_velocity_raw(357_914);
    packet(run(&mut bench, &mut driver, first));
    assert_eq!(driver.get_velocity_max(), 1000);
    assert_eq!(driver.v_max_raw, 357_914);
    let first = driver.set_velocity_raw(256);
    packet(run(&mut bench, &mut driver, first));
    assert_eq!(driver.get_velocity_max(), 1);
    assert_eq!(driver.v_max_raw, 256);
    let mut other = Tmc5160::<BusFault>::new().step_count(0);
    let first = other.set_velocity_raw(1);
    packet(run(&mut bench, &mut other, first));
    assert_eq!(other.get_velocity_max(), u32::MAX);
}

#[test]
fn set_acceleration_converts_the_acceleration() {
    let mut driver = Tmc5160::<BusFault>::new();
    let mut bench = bench(vec![Ok([0, 0, 0, 0, 0]); 4]);
    let first = driver.set_acceleration(1000);
    packet(run(&mut bench, &mut driver, first));
    assert_eq!(
        bench.done,
        exchanges(&[
            [0xA6, 0x00, 0x00, 0x0F, 0x45],
            [0xA8, 0x00, 0x00, 0x0F, 0x45],
            [0xA4, 0x00, 0x00, 0x0F, 0x45],
            [0xAA, 0x00, 0x00, 0x0F, 0x45],
        ])
    );
}

#[test]
fn clock_and_step_count_change_the_conversions() {
    let mut driver = Tmc5160::<BusFault>::new().clock(16_000_000).step_count(64);
    assert_eq!(driver.context.clock_hz, 16_000_000);
    assert_eq!(driver.context.microsteps, 64);
    let mut bench = bench(vec![Ok([0, 0, 0, 0, 0]); 3]);
    let first = driver.set_velocity(4);
    packet(run(&mut bench, &mut driver, first));
    let first = driver.move_to(-3);
    packet(run(&mut bench, &mut driver, first));
    let first = driver.set_position(10);
    packet(run(&mut bench, &mut driver, first));
    assert_eq!(
        bench.done,
        exchanges(&[
            [0xA7, 0x00, 0x00, 0x01, 0x0C],
            [0xAD, 0xFF, 0xFF, 0xFF, 0x40],
            [0xA1, 0x00, 0x00, 0x02, 0x80],
        ])
    );
}

#[test]
fn move_to_converts_full_steps_into_microsteps() {
    let mut driver = Tmc5160::<BusFault>::new().attach_en();
    let mut bench = bench(vec![Ok([0x10, 0, 0, 0, 0])]);
    let first = driver.move_to(200);
    packet(run(&mut bench, &mut driver, first));
    let mut expected = vec![Done::Enable(Level::Low)];
    expected.extend(exchange([0xAD, 0x00, 0x00, 0xC8, 0x00]));
    assert_eq!(bench.done, expected);
}

#[test]
fn positions_are_read_as_signed_microsteps() {
    let mut driver = Tmc5160::<BusFault>::new();
    let mut bench = bench(vec![
        Ok([0, 0, 0, 0, 0]),
        Ok([0, 0x00, 0x00, 0xC8, 0x00]),
        Ok([0, 0, 0, 0, 0]),
        Ok([0, 0xFF, 0xFF, 0xFF, 0xFF]),
        Ok([0, 0, 0, 0, 0]),
        Ok([0, 0x80, 0x00, 0x00, 0x00]),
    ]);
    let first = driver.get_position();
    assert_eq!(run(&mut bench, &mut driver, first), Ok(Reply::Position { steps: 51_200, position: 200 }));
    let first = driver.get_target();
    assert_eq!(run(&mut bench, &mut driver, first), Ok(Reply::Position { steps: -1, position: 0 }));
    let first = driver.get_latched_position();
    assert_eq!(run(&mut bench, &mut driver, first), Ok(Reply::Position { steps: i32::MIN, position: -8_388_608 }));
    assert_eq!(
        bench.done,
        exchanges(&[
            [0x21, 0, 0, 0, 0],
            [0x21, 0, 0, 0, 0],
            [0x2D, 0, 0, 0, 0],
            [0x2D, 0, 0, 0, 0],
            [0x36, 0, 0, 0, 0],
            [0x36, 0, 0, 0, 0],
        ])
    );
}

#[test]
fn velocity_is_read_and_decoded() {
    let mut driver = Tmc5160::<BusFault>::new();
    let mut bench = bench(vec![
        Ok([0, 0, 0, 0, 0]),
        Ok([0, 0x00, 0x00, 0x00, 0x64]),
        Ok([0, 0, 0, 0, 0]),
        Ok([0, 0x00, 0xFF, 0xFF, 0x9C]),
    ]);
    let first = driver.get_velocity();
    assert_eq!(run(&mut bench, &mut driver, first), Ok(Reply::Velocity { ticks: 100, speed_hz: 0 }));
    let first = driver.get_velocity();
    assert_eq!(run(&mut bench, &mut driver, first), Ok(Reply::Velocity { ticks: -99, speed_hz: 0 }));
    assert_eq!(bench.done[1], Done::Transfer([0x22, 0, 0, 0, 0]));
}

#[test]
fn velocity_is_converted_into_hertz() {
    let mut driver = Tmc5160::<BusFault>::new();
    let mut bench = bench(vec![
        Ok([0, 0, 0, 0, 0]),
        Ok([0, 0x00, 0x05, 0x76, 0x1A]),
        Ok([0, 0, 0, 0, 0]),
        Ok([0, 0x00, 0xFA, 0x89, 0xE5]),
    ]);
    let first = driver.get_velocity();
    assert_eq!(
        run(&mut bench, &mut driver, first),
        Ok(Reply::Velocity { ticks: 357_914, speed_hz: 1000 })
    );
    let first = driver.get_velocity();
    assert_eq!(
        run(&mut bench, &mut driver, first),
        Ok(Reply::Velocity { ticks: -357_914, speed_hz: -1000 })
    );
}

#[test]
fn position_is_converted_by_the_step_count_of_the_driver() {
    let mut driver = Tmc5160::<BusFault>::new().step_count(64);
    let mut bench = bench(vec![Ok([0, 0, 0, 0, 0]), Ok([0, 0x00, 0x00, 0xC8, 0x00])]);
    let first = driver.get_position();
    assert_eq!(
        run(&mut bench, &mut driver, first),
        Ok(Reply::Position { steps: 51_200, position: 800 })
    );
}

#[test]
fn status_registers_are_read_decoded_and_the_status_byte_kept() {
    let mut driver = Tmc5160::<BusFault>::new();
    let mut bench = bench(vec![
        Ok([0x01, 0, 0, 0, 0]),
        Ok([0x08, 0x80, 0x00, 0x01, 0x23]),
        Ok([0x02, 0, 0, 0, 0]),
        Ok([0x28, 0x00, 0x00, 0x03, 0x02]),
    ]);
    let first = driver.read_drv_status();
    match run(&mut bench, &mut driver, first) {
        Ok(Reply::DrvStatus(status)) => {
            assert!(status.standstill());
            assert_eq!(status.sg_result(), 0x123);
        }
        other => panic!("no driver status: {:?}", other),
    }
    assert_eq!(driver.status.to_byte(), 0x08);
    assert_eq!(driver.debug, [0; 5]);
    let first = driver.read_ramp_status();
    match run(&mut bench, &mut driver, first) {
        Ok(Reply::RampStat(status)) => {
            assert!(status.position_reached());
            assert!(status.velocity_reached());
            assert!(status.status_stop_r());
            assert!(!status.status_stop_l());
        }
        other => panic!("no ramp status: {:?}", other),
    }
    assert_eq!(driver.status.to_byte(), 0x28);
}

#[test]
fn global_status_read_keeps_the_reply_bytes() {
    let mut driver = Tmc5160::<BusFault>::new();
    let mut bench = bench(vec![Ok([0x01, 9, 9, 9, 9]), Ok([0x09, 0, 0, 0, 0b101])]);
    let first = driver.read_gstat();
    match run(&mut bench, &mut driver, first) {
        Ok(Reply::GStat(status)) => {
            assert!(status.reset());
            assert!(!status.drv_err());
            assert!(status.uv_cp());
        }
        other => panic!("no global status: {:?}", other),
    }
    assert_eq!(driver.status.to_byte(), 0x09);
    assert_eq!(driver.debug, [0x09, 0, 0, 0, 0b101]);
}

#[test]
fn configuration_and_encoder_status_reads() {
    let mut driver = Tmc5160::<BusFault>::new();
    let mut bench = bench(vec![
        Ok([0, 0, 0, 0, 0]),
        Ok([0x01, 0, 0, 0, 0x14]),
        Ok([0, 0, 0, 0, 0]),
        Ok([0x02, 0, 0, 0, 0x01]),
    ]);
    let first = driver.read_gconf();
    match run(&mut bench, &mut driver, first) {
        Ok(Reply::GConf(conf)) => {
            assert!(conf.shaft());
            assert!(conf.en_pwm_mode());
            assert!(!conf.recalibrate());
        }
        other => panic!("no configuration: {:?}", other),
    }
    assert_eq!(driver.status.to_byte(), 0x01);
    let first = driver.read_enc_status();
    match run(&mut bench, &mut driver, first) {
        Ok(Reply::EncStatus(status)) => {
            assert!(status.n_event());
            assert!(!status.deviation_warn());
        }
        other => panic!("no encoder status: {:?}", other),
    }
    assert_eq!(driver.status.to_byte(), 0x02);
    assert_eq!(bench.done[1], Done::Transfer([0x00, 0, 0, 0, 0]));
    assert_eq!(bench.done[7], Done::Transfer([0x3B, 0, 0, 0, 0]));
}

#[test]
fn motion_flags_come_from_a_fresh_read() {
    let mut driver = Tmc5160::<BusFault>::new();
    let stale = Ok([0xFF, 0xFF, 0xFF, 0xFF, 0xFF]);
    let mut bench = bench(vec![
        stale,
        Ok([0, 0x00, 0, 0, 0]),
        stale,
        Ok([0, 0x80, 0, 0, 0]),
        Ok([0, 0, 0, 0, 0]),
        Ok([0, 0, 0, 0x02, 0x00]),
        Ok([0, 0, 0, 0, 0]),
        Ok([0, 0, 0, 0x01, 0x00]),
        Ok([0, 0, 0, 0, 0]),
        Ok([0, 0, 0, 0, 0x02]),
        Ok([0, 0, 0, 0, 0]),
        Ok([0, 0, 0, 0, 0x01]),
    ]);
    let first = driver.is_moving();
    assert_eq!(run(&mut bench, &mut driver, first), Ok(Reply::Flag(true)));
    let first = driver.is_moving();
    assert_eq!(run(&mut bench, &mut driver, first), Ok(Reply::Flag(false)));
    let first = driver.position_is_reached();
    assert_eq!(run(&mut bench, &mut driver, first), Ok(Reply::Flag(true)));
    let first = driver.velocity_is_reached();
    assert_eq!(run(&mut bench, &mut driver, first), Ok(Reply::Flag(true)));
    let first = driver.is_at_limit_r();
    assert_eq!(run(&mut bench, &mut driver, first), Ok(Reply::Flag(true)));
    let first = driver.is_at_limit_l();
    assert_eq!(run(&mut bench, &mut driver, first), Ok(Reply::Flag(true)));
    assert_eq!(bench.next_reply, 12);
    assert_eq!(bench.done[1], Done::Transfer([0x6F, 0, 0, 0, 0]));
    assert_eq!(bench.done[13], Done::Transfer([0x35, 0, 0, 0, 0]));
}

#[test]
fn motion_flags_that_are_clear() {
    let mut driver = Tmc5160::<BusFault>::new();
    let mut bench = bench(vec![
        Ok([0, 0, 0, 0, 0]),
        Ok([0, 0xFF, 0xFF, 0xFD, 0xFF]),
        Ok([0, 0, 0, 0, 0]),
        Ok([0, 0xFF, 0xFF, 0xFF, 0xFE]),
    ]);
    let first = driver.position_is_reached();
    assert_eq!(run(&mut bench, &mut driver, first), Ok(Reply::Flag(false)));
    let first = driver.is_at_limit_l();
    assert_eq!(run(&mut bench, &mut driver, first), Ok(Reply::Flag(false)));
}

#[test]
fn clearing_status_registers_writes_three_ones() {
    let mut driver = Tmc5160::<BusFault>::new();
    let mut bench = bench(vec![Ok([0, 0, 0, 0, 0]), Ok([0, 0, 0, 0, 0])]);
    let first = driver.clear_g_stat();
    packet(run(&mut bench, &mut driver, first));
    let first = driver.clear_enc_status();
    packet(run(&mut bench, &mut driver, first));
    assert_eq!(bench.done, exchanges(&[[0x81, 0, 0, 0, 0b111], [0xBB, 0, 0, 0, 0b111]]));
}

#[test]
fn update_writes_the_configuration_most_significant_byte_first() {
    let mut driver = Tmc5160::<BusFault>::new();
    let mut bench = bench(vec![Ok([0, 0, 0, 0, 0]); 7]);
    driver.chop_conf.set_toff(3);
    driver.g_conf.set_en_pwm_mode(true);
    driver.ihold_irun.set_irun(31);
    driver.sw_mode.set_sg_stop(true);
    driver.enc_mode.set_pol_n(true);
    driver.cool_conf.set_sgt(5);
    let first = driver.update_chop_conf();
    packet(run(&mut bench, &mut driver, first));
    let first = driver.update_g_conf();
    packet(run(&mut bench, &mut driver, first));
    let first = driver.update_ihold_irun();
    packet(run(&mut bench, &mut driver, first));
    let first = driver.update_sw_mode();
    packet(run(&mut bench, &mut driver, first));
    let first = driver.update_enc_mode();
    packet(run(&mut bench, &mut driver, first));
    let first = driver.update_cool_conf();
    packet(run(&mut bench, &mut driver, first));
    let first = driver.update_pwm_conf();
    packet(run(&mut bench, &mut driver, first));
    assert_eq!(
        bench.done,
        exchanges(&[
            [0xEC, 0x10, 0x41, 0x01, 0x53],
            [0x80, 0x00, 0x00, 0x00, 0x04],
            [0x90, 0x00, 0x00, 0x1F, 0x00],
            [0xB4, 0x00, 0x00, 0x04, 0x00],
            [0xB8, 0x00, 0x00, 0x00, 0x04],
            [0xED, 0x00, 0x05, 0x00, 0x00],
            [0xF0, 0xC4, 0x0C, 0x00, 0x1E],
        ])
    );
}

#[test]
fn ramp_status_events_are_cleared_by_writing_them() {
    let mut driver = Tmc5160::<BusFault>::new();
    let mut bench = bench(vec![Ok([0, 0, 0, 0, 0])]);
    let mut events = tmc5160::registers::RampStat::new();
    events.set_event_stop_sg(true);
    events.set_event_pos_reached(true);
    let first = driver.write_ramp_stat(events);
    packet(run(&mut bench, &mut driver, first));
    assert_eq!(bench.done, exchange([0xB5, 0, 0, 0, 0xC0]));
}

#[test]
fn plain_register_setters_write_their_register() {
    let mut driver = Tmc5160::<BusFault>::new();
    let mut bench = bench(vec![Ok([0, 0, 0, 0, 0]); 14]);
    let first = driver.set_global_scaler(1);
    packet(run(&mut bench, &mut driver, first));
    let first = driver.set_tpowerdown(2);
    packet(run(&mut bench, &mut driver, first));
    let first = driver.set_tpwmthrs(3);
    packet(run(&mut bench, &mut driver, first));
    let first = driver.set_tcoolthrs(4);
    packet(run(&mut bench, &mut driver, first));
    let first = driver.set_a1(5);
    packet(run(&mut bench, &mut driver, first));
    let first = driver.set_v1(6);
    packet(run(&mut bench, &mut driver, first));
    let first = driver.set_amax(7);
    packet(run(&mut bench, &mut driver, first));
    let first = driver.set_vmax(8);
    packet(run(&mut bench, &mut driver, first));
    let first = driver.set_dmax(9);
    packet(run(&mut bench, &mut driver, first));
    let first = driver.set_d1(10);
    packet(run(&mut bench, &mut driver, first));
    let first = driver.set_vstart(11);
    packet(run(&mut bench, &mut driver, first));
    let first = driver.set_vstop(12);
    packet(run(&mut bench, &mut driver, first));
    let first = driver.set_pwm_auto(13);
    packet(run(&mut bench, &mut driver, first));
    let first = driver.set_rampmode(tmc5160::registers::RampMode::VelocityNegative);
    packet(run(&mut bench, &mut driver, first));
    assert_eq!(
        bench.done,
        exchanges(&[
            [0x8B, 0, 0, 0, 1],
            [0x91, 0, 0, 0, 2],
            [0x93, 0, 0, 0, 3],
            [0x94, 0, 0, 0, 4],
            [0xA4, 0, 0, 0, 5],
            [0xA5, 0, 0, 0, 6],
            [0xA6, 0, 0, 0, 7],
            [0xA7, 0, 0, 0, 8],
            [0xA8, 0, 0, 0, 9],
            [0xAA, 0, 0, 0, 10],
            [0xA3, 0, 0, 0, 11],
            [0xAB, 0, 0, 0, 12],
            [0xF2, 0, 0, 0, 13],
            [0xA0, 0, 0, 0, 2],
        ])
    );
    assert_eq!(driver.status.to_byte(), 0);
}

#[test]
fn legacy_read_passes_over_failures_and_keeps_the_buffer() {
    let mut driver = Tmc5160::<BusFault>::new();
    let mut bench = bench(vec![Err(BusFault(1)), Err(BusFault(2))]);
    let buffer = [9, 8, 7, 6, 5];
    let first = driver.old_read_register(0x21, &buffer);
    assert_eq!(run(&mut bench, &mut driver, first), Ok(Reply::Frame([9, 8, 7, 6, 5])));
    assert_eq!(bench.done, exchanges(&[[0x21, 0, 0, 0, 0], [0x21, 0, 0, 0, 0]]));
    assert_eq!(bench.chip_select, Level::High);
}

#[test]
fn legacy_read_answers_with_the_last_reply_received() {
    let mut driver = Tmc5160::<BusFault>::new();
    let mut bench = bench(vec![Ok([1, 1, 1, 1, 1]), Ok([2, 2, 2, 2, 2])]);
    let first = driver.old_read_register(0x6F, &[0; 5]);
    assert_eq!(run(&mut bench, &mut driver, first), Ok(Reply::Frame([2, 2, 2, 2, 2])));
    let mut bench = self::bench(vec![Ok([1, 1, 1, 1, 1]), Err(BusFault(2))]);
    let first = driver.old_read_register(0x6F, &[0; 5]);
    assert_eq!(run(&mut bench, &mut driver, first), Ok(Reply::Frame([1, 1, 1, 1, 1])));
    let mut bench = self::bench(vec![Err(BusFault(1)), Ok([2, 2, 2, 2, 2])]);
    let first = driver.old_read_register(0x6F, &[0; 5]);
    assert_eq!(run(&mut bench, &mut driver, first), Ok(Reply::Frame([2, 2, 2, 2, 2])));
}

#[test]
fn legacy_read_passes_over_pin_failures() {
    let mut driver = Tmc5160::<BusFault>::new();
    let mut bench = bench(vec![Ok([1, 1, 1, 1, 1]), Ok([2, 2, 2, 2, 2])]);
    bench.chip_select_low_fails = true;
    bench.chip_select_high_fails = true;
    let first = driver.old_read_register(0x01, &[0; 5]);
    assert_eq!(run(&mut bench, &mut driver, first), Ok(Reply::Frame([2, 2, 2, 2, 2])));
    assert_eq!(bench.done, exchanges(&[[0x01, 0, 0, 0, 0], [0x01, 0, 0, 0, 0]]));
}

#[test]
fn legacy_write_answers_with_the_status_byte_or_zero() {
    let mut driver = Tmc5160::<BusFault>::new();
    let mut bench = bench(vec![Ok([0x0B, 1, 2, 3, 4])]);
    let first = driver.old_write_register(0x27, &[0, 0, 1, 0]);
    assert_eq!(run(&mut bench, &mut driver, first), Ok(Reply::StatusByte(0x0B)));
    assert_eq!(bench.done, exchange([0xA7, 0, 0, 1, 0]));
    let mut bench = self::bench(vec![Err(BusFault(5))]);
    let first = driver.old_write_register(0x27, &[0, 0, 1, 0]);
    assert_eq!(run(&mut bench, &mut driver, first), Ok(Reply::StatusByte(0)));
    assert_eq!(bench.chip_select, Level::High);
}

#[test]
fn event_that_does_not_answer_the_action_changes_nothing() {
    let mut driver = Tmc5160::<BusFault>::new();
    let first = driver.set_vmax(1);
    assert_eq!(first, Action::SetChipSelect(Level::Low));
    assert_eq!(driver.resume(Event::Transferred([0; 5])), Action::SetChipSelect(Level::Low));
    assert_eq!(driver.resume(Event::PinSet), Action::Transfer([0xA7, 0, 0, 0, 1]));
    assert_eq!(driver.resume(Event::PinSet), Action::Transfer([0xA7, 0, 0, 0, 1]));
    assert_eq!(driver.resume(Event::PinFailed), Action::Transfer([0xA7, 0, 0, 0, 1]));
    assert_eq!(driver.resume(Event::Transferred([0; 5])), Action::SetChipSelect(Level::High));
    assert_eq!(
        driver.resume(Event::TransferFailed(BusFault(1))),
        Action::SetChipSelect(Level::High)
    );
    assert!(matches!(driver.resume(Event::PinSet), Action::Done(Ok(Reply::Packet(_)))));
    assert!(driver.is_idle());
}

#[test]
fn request_scripts() {
    let script = Request::SetAcceleration(7).script(false, false);
    assert_eq!(script.count(), 4);
    assert_eq!(script.frame(0, 0), [0xA6, 0, 0, 0, 7]);
    assert_eq!(script.frame(1, 0), [0xA8, 0, 0, 0, 7]);
    assert_eq!(script.frame(2, 0), [0xA4, 0, 0, 0, 7]);
    assert_eq!(script.frame(3, 0), [0xAA, 0, 0, 0, 7]);
    assert_eq!(script.frame(4, 0), [0, 0, 0, 0, 0]);
    assert_eq!(script.gate, None);
    assert!(!script.lenient);
    let script = Request::Read(0x21, Decode::Packet).script(true, false);
    assert_eq!(script.count(), 2);
    assert_eq!(script.gate, None);
    let script = Request::MoveTo(1).script(true, true);
    assert_eq!(script.gate, Some(Level::High));
    assert_eq!(script.count(), 1);
    let script = Request::Stop.script(true, true);
    assert_eq!(script.gate, Some(Level::Low));
    assert_eq!(script.count(), 5);
    assert!(script.asks);
    assert!(script.asks_at(4));
    assert!(!script.asks_at(3));
    assert_eq!(script.frame(3, 0x0102_0304), [0x21, 0, 0, 0, 0]);
    assert_eq!(script.frame(4, 0x0102_0304), [0xAD, 1, 2, 3, 4]);
    assert_eq!(script.frame(5, 0x0102_0304), [0, 0, 0, 0, 0]);
    let script = Request::Enable.script(false, true);
    assert_eq!(script.gate, None);
    assert_eq!(script.count(), 0);
    let script = Request::OldRead(0xA1, [1, 2, 3, 4, 5]).script(true, false);
    assert!(script.lenient);
    assert_eq!(script.seed, [1, 2, 3, 4, 5]);
    assert_eq!(script.frame(0, 0), [0xA1, 0, 0, 0, 0]);
}

#[test]
fn sequencer_alone_runs_a_script() {
    let script = Request::Write(0x10, 0x0006_1F08).script(false, false);
    let (mut sequencer, first) = Sequencer::<BusFault>::begin(script);
    assert_eq!(first, Action::SetChipSelect(Level::Low));
    assert!(!sequencer.is_idle());
    assert_eq!(sequencer.resume(Event::PinSet), Action::Transfer([0x90, 0x00, 0x06, 0x1F, 0x08]));
    assert_eq!(sequencer.resume(Event::Transferred([1, 2, 3, 4, 5])), Action::SetChipSelect(Level::High));
    assert_eq!(sequencer.resume(Event::PinSet), Action::Done(Ok([1, 2, 3, 4, 5])));
    assert!(sequencer.is_idle());
    assert!(Sequencer::<BusFault>::new().is_idle());
}

#[test]
fn decode_choices() {
    let reply = DataPacket::decode([0x08, 0xFF, 0xFF, 0xFF, 0x9C], [0; 5]);
    let context = MotorContext::new();
    assert_eq!(Decode::Word.apply(reply, context), Reply::Word(0xFFFF_FF9C));
    assert_eq!(Decode::Position.apply(reply, context), Reply::Position { steps: -100, position: 0 });
    assert_eq!(Decode::Velocity.apply(reply, context), Reply::Velocity { ticks: -99, speed_hz: 0 });
    assert_eq!(Decode::Packet.apply(reply, context), Reply::Packet(reply));
    assert_eq!(Decode::Moving.apply(reply, context), Reply::Flag(false));
    assert!(!Decode::Word.keeps_status());
    assert!(!Decode::Packet.keeps_status());
    assert!(!Decode::Position.keeps_status());
    assert!(!Decode::Velocity.keeps_status());
    assert!(Decode::Moving.keeps_status());
    assert!(Decode::GStat.keeps_status());
    assert!(Request::Read(1, Decode::GStat).keeps_debug());
    assert!(!Request::Read(1, Decode::GConf).keeps_debug());
    assert!(Request::SetHome.keeps_status());
    assert!(Request::Stop.keeps_status());
    assert!(!Request::Write(1, 2).keeps_status());
    assert!(Request::WriteLatched(1, 2).keeps_status());
}
