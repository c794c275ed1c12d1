use tmc5160::units::{decode_velocity, from_signed, to_signed, MotorContext};

#[test]
fn positive_velocity_is_the_word_itself() {
    assert_eq!(decode_velocity(0x0000_0064), 100);
    assert_eq!(decode_velocity(0), 0);
    assert_eq!(decode_velocity(0x007F_FFFF), 8_388_607);
}

#[test]
fn negative_velocity_follows_the_offset_formula() {
    let raw = 0x0080_0000 | (0x007F_FFFF - 99);
    assert_eq!(raw, 0x00FF_FF9C);
    assert_eq!(decode_velocity(raw), -(8_388_607 - (0x007F_FFFF - 99)));
    assert_eq!(decode_velocity(raw), -99);
    assert_eq!(decode_velocity(0x00FF_FFFF), 0);
    assert_eq!(decode_velocity(0x0080_0000), -8_388_607);
}

#[test]
fn velocity_ignores_the_bits_above_the_sign_when_negative() {
    assert_eq!(decode_velocity(0xFFFF_FF9C), -99);
    assert_eq!(decode_velocity(0x0180_0001), -8_388_606);
}

#[test]
fn velocity_without_sign_bit_is_read_as_32_bits() {
    assert_eq!(decode_velocity(0x0100_0000), 0x0100_0000);
    assert_eq!(decode_velocity(0xFF00_0000), -0x0100_0000);
}

#[test]
fn words_and_signed_numbers() {
    assert_eq!(to_signed(0), 0);
    assert_eq!(to_signed(0x7FFF_FFFF), i32::MAX);
    assert_eq!(to_signed(0x8000_0000), i32::MIN);
    assert_eq!(to_signed(0xFFFF_FFFF), -1);
    assert_eq!(from_signed(-1), 0xFFFF_FFFF);
    assert_eq!(from_signed(i32::MIN), 0x8000_0000);
    assert_eq!(from_signed(51_200), 51_200);
    for value in [0, 1, -1, 256, -256, i32::MAX, i32::MIN] {
        assert_eq!(to_signed(from_signed(value)), value);
    }
}

#[test]
fn default_context() {
    let context = MotorContext::new();
    assert_eq!(context.clock_hz, 12_000_000);
    assert_eq!(context.microsteps, 256);
    let other = context.clock(16_000_000).step_count(64);
    assert_eq!(other.clock_hz, 16_000_000);
    assert_eq!(other.microsteps, 64);
}

#[test]
fn one_hertz_at_the_default_clock() {
    let context = MotorContext::new();
    assert_eq!(context.speed_to_ticks(1), 358);
    assert_eq!(context.speed_to_ticks(0), 0);
    assert_eq!(context.speed_to_ticks(1000), 357_914);
    assert_eq!(context.clock(16_000_000).speed_to_ticks(1), 268);
}

#[test]
fn speed_beyond_the_register_is_held_at_its_end() {
    let context = MotorContext::new();
    assert_eq!(context.speed_to_ticks(11_999_999), 4_294_966_938);
    assert_eq!(context.speed_to_ticks(12_000_000), u32::MAX);
    assert_eq!(context.speed_to_ticks(u32::MAX), u32::MAX);
}

#[test]
fn speed_at_a_clock_of_zero() {
    let context = MotorContext::new().clock(0);
    assert_eq!(context.speed_to_ticks(1), u32::MAX);
    assert_eq!(context.speed_to_ticks(0), 0);
    assert_eq!(context.step_count(0).speed_to_ticks(1), 0);
}

#[test]
fn acceleration_at_the_default_clock() {
    let context = MotorContext::new();
    assert_eq!(context.accel_to_ticks(0), 0);
    assert_eq!(context.accel_to_ticks(1), 4);
    assert_eq!(context.accel_to_ticks(1000), 3909);
    assert_eq!(context.accel_to_ticks(50_000), 195_469);
}

#[test]
fn acceleration_beyond_the_register_is_held_at_its_end() {
    let context = MotorContext::new();
    assert_eq!(context.clock(0).accel_to_ticks(1), u32::MAX);
    assert_eq!(context.clock(0).accel_to_ticks(0), 0);
    assert_eq!(context.step_count(u32::MAX).accel_to_ticks(u32::MAX), u32::MAX);
    assert_eq!(context.clock(1).accel_to_ticks(1), u32::MAX);
}

#[test]
fn acceleration_scale_differs_from_speed_scale() {
    let context = MotorContext::new();
    assert_ne!(context.accel_to_ticks(1000), context.speed_to_ticks(1000));
}

#[test]
fn velocity_in_hertz() {
    let context = MotorContext::new();
    assert_eq!(context.ticks_to_speed(357_914), 1000);
    assert_eq!(context.ticks_to_speed(-357_914), -1000);
    assert_eq!(context.ticks_to_speed(358), 1);
    assert_eq!(context.ticks_to_speed(100), 0);
    assert_eq!(context.ticks_to_speed(-100), 0);
    assert_eq!(context.ticks_to_speed(0), 0);
    assert_eq!(context.step_count(0).ticks_to_speed(100), i64::MAX);
    assert_eq!(context.step_count(0).ticks_to_speed(-100), i64::MIN);
    assert_eq!(context.step_count(0).ticks_to_speed(0), 0);
    assert_eq!(context.step_count(1).clock(u32::MAX).ticks_to_speed(i64::MAX), i64::MAX);
    assert_eq!(context.step_count(1).clock(u32::MAX).ticks_to_speed(i64::MIN), i64::MIN);
}

#[test]
fn decoded_velocity_in_hertz() {
    let context = MotorContext::new();
    let ticks = decode_velocity(0x0005_761A);
    assert_eq!(ticks, 357_914);
    assert_eq!(context.ticks_to_speed(ticks as i64), 1000);
}

#[test]
fn position_in_microsteps() {
    let context = MotorContext::new();
    assert_eq!(context.position_to_steps(200), 51_200);
    assert_eq!(context.position_to_steps(-3), -768);
    assert_eq!(context.position_to_steps(0), 0);
    assert_eq!(context.position_to_steps(8_388_607), 2_147_483_392);
    assert_eq!(context.position_to_steps(8_388_608), i32::MAX);
    assert_eq!(context.position_to_steps(-8_388_608), i32::MIN);
    assert_eq!(context.position_to_steps(-8_388_609), i32::MIN);
    assert_eq!(context.step_count(0).position_to_steps(5), 0);
}

#[test]
fn position_in_full_steps() {
    let context = MotorContext::new();
    assert_eq!(context.steps_to_position(384), 2);
    assert_eq!(context.steps_to_position(-384), -2);
    assert_eq!(context.steps_to_position(383), 1);
    assert_eq!(context.steps_to_position(128), 1);
    assert_eq!(context.steps_to_position(-128), -1);
    assert_eq!(context.steps_to_position(127), 0);
    assert_eq!(context.steps_to_position(-127), 0);
    assert_eq!(context.steps_to_position(i32::MIN), -8_388_608);
    assert_eq!(context.step_count(1).steps_to_position(i32::MIN), i32::MIN);
    assert_eq!(context.step_count(0).steps_to_position(1), i32::MAX);
    assert_eq!(context.step_count(0).steps_to_position(-1), i32::MIN);
    assert_eq!(context.step_count(0).steps_to_position(0), 0);
}

#[test]
fn position_survives_the_way_to_microsteps_and_back() {
    let context = MotorContext::new();
    for position in [0, 1, -1, 200, -200, 12_345, -54_321, 8_388_607, -8_388_608] {
        let steps = context.position_to_steps(position);
        assert_eq!(context.steps_to_position(steps), position);
    }
}

#[test]
fn position_is_split_into_whole_steps_and_a_rest() {
    let context = MotorContext::new();
    assert_eq!(context.steps_to_parts(384), (1, 128));
    assert_eq!(context.steps_to_parts(-384), (-1, -128));
    assert_eq!(context.steps_to_parts(51_200), (200, 0));
    assert_eq!(context.steps_to_parts(255), (0, 255));
    assert_eq!(context.steps_to_parts(-1), (0, -1));
    assert_eq!(context.steps_to_parts(0), (0, 0));
    assert_eq!(context.steps_to_parts(i32::MAX), (8_388_607, 255));
    assert_eq!(context.steps_to_parts(i32::MIN), (-8_388_608, 0));
    assert_eq!(context.step_count(1).steps_to_parts(i32::MIN), (i32::MIN, 0));
    assert_eq!(context.step_count(0).steps_to_parts(77), (0, 77));
    assert_eq!(context.step_count(u32::MAX).steps_to_parts(-5), (0, -5));
    assert_eq!(context.step_count(200).steps_to_parts(-1001), (-5, -1));
}

#[test]
fn position_is_put_together_from_its_parts() {
    let context = MotorContext::new();
    assert_eq!(context.parts_to_steps(1, 128), 384);
    assert_eq!(context.parts_to_steps(-1, -128), -384);
    assert_eq!(context.parts_to_steps(0, 0), 0);
    assert_eq!(context.parts_to_steps(8_388_607, 255), i32::MAX);
    assert_eq!(context.parts_to_steps(8_388_608, 0), i32::MAX);
    assert_eq!(context.parts_to_steps(-8_388_609, 0), i32::MIN);
    assert_eq!(context.step_count(0).parts_to_steps(9, 77), 77);
}

#[test]
fn every_position_survives_the_split_and_back() {
    for microsteps in [0u32, 1, 2, 3, 16, 200, 256, 0x8000_0000, u32::MAX] {
        let context = MotorContext::new().step_count(microsteps);
        for steps in [0, 1, -1, 127, 128, -128, 255, 256, 383, 384, -384, 51_199, i32::MAX, i32::MIN] {
            let (whole, rest) = context.steps_to_parts(steps);
            assert_eq!(context.parts_to_steps(whole, rest), steps);
        }
    }
}
