use tmc5160::registers::bits::{get_field, get_flag, mask_of, set_field, set_flag};
use tmc5160::registers::{
    Address, ChopConf, CoolConf, DrvConf, DrvStatus, EncMode, EncStatus, GConf, GStat, IHoldIRun,
    MsLutSel, NodeConf, OtpProg, PwmConf, RampMode, RampStat, Registers, ShortConf, SpiStatus,
    SwMode,
};
use tmc5160::swap_bytes;
use tmc5160::wire::{from_be_bytes, from_le_bytes, to_be_bytes, to_le_bytes};

#[test]
fn swap_bytes_reverses_the_order() {
    assert_eq!(swap_bytes([1, 2, 3, 4]), [4, 3, 2, 1]);
    assert_eq!(swap_bytes(swap_bytes([0xDE, 0xAD, 0xBE, 0xEF])), [0xDE, 0xAD, 0xBE, 0xEF]);
}

#[test]
fn big_endian_bytes_of_a_word() {
    assert_eq!(to_be_bytes(0x1234_5678), [0x12, 0x34, 0x56, 0x78]);
    assert_eq!(from_be_bytes([0x12, 0x34, 0x56, 0x78]), 0x1234_5678);
    assert_eq!(to_be_bytes(0), [0, 0, 0, 0]);
    assert_eq!(from_be_bytes([0xFF, 0xFF, 0xFF, 0xFF]), 0xFFFF_FFFF);
}

#[test]
fn little_endian_bytes_of_a_word() {
    assert_eq!(to_le_bytes(0x1234_5678), [0x78, 0x56, 0x34, 0x12]);
    assert_eq!(from_le_bytes([0x78, 0x56, 0x34, 0x12]), 0x1234_5678);
}

#[test]
fn swapping_turns_little_endian_into_big_endian() {
    for word in [0u32, 1, 0x8000_0000, 0x1041_0150, 0xC40C_001E, 0xFFFF_FFFF] {
        assert_eq!(swap_bytes(to_le_bytes(word)), to_be_bytes(word));
        assert_eq!(from_be_bytes(swap_bytes(to_le_bytes(word))), word);
    }
}

#[test]
fn masks_of_field_widths() {
    assert_eq!(mask_of(1), 0x1);
    assert_eq!(mask_of(4), 0xF);
    assert_eq!(mask_of(10), 0x3FF);
    assert_eq!(mask_of(23), 0x7F_FFFF);
    assert_eq!(mask_of(32), 0xFFFF_FFFF);
}

#[test]
fn field_is_read_from_its_bits() {
    assert_eq!(get_field(0x1041_0150, 4, 3), 5);
    assert_eq!(get_field(0x1041_0150, 7, 4), 2);
    assert_eq!(get_field(0xFFFF_FFFF, 0, 32), 0xFFFF_FFFF);
    assert_eq!(get_field(0x8000_0000, 31, 1), 1);
    assert!(get_flag(0x8000_0000, 31));
    assert!(!get_flag(0x7FFF_FFFF, 31));
}

#[test]
fn field_is_written_to_its_bits_only() {
    assert_eq!(set_field(0, 4, 3, 5), 0x50);
    assert_eq!(set_field(0xFFFF_FFFF, 4, 3, 0), 0xFFFF_FF8F);
    assert_eq!(set_field(0, 4, 3, 0xFF), 0x70);
    assert_eq!(set_field(0x1234_5678, 0, 32, 0x9ABC_DEF0), 0x9ABC_DEF0);
    assert_eq!(set_flag(0, 31, true), 0x8000_0000);
    assert_eq!(set_flag(0xFFFF_FFFF, 0, false), 0xFFFF_FFFE);
}

#[test]
fn field_beyond_the_word() {
    assert_eq!(get_field(0xFFFF_FFFF, 32, 4), 0);
    assert_eq!(get_field(0xFFFF_FFFF, 40, 1), 0);
    assert_eq!(get_field(0xFFFF_FFFF, 30, 4), 0x3);
    assert_eq!(set_field(0x1234_5678, 32, 4, 0xF), 0x1234_5678);
    assert_eq!(set_field(0, 30, 4, 0xF), 0xC000_0000);
    assert!(!get_flag(0xFFFF_FFFF, 32));
    assert_eq!(set_flag(0, 32, true), 0);
    assert_eq!(get_field(0xFFFF_FFFF, 0, 0), 0);
    assert_eq!(mask_of(0), 0);
    assert_eq!(mask_of(40), 0xFFFF_FFFF);
}

#[test]
fn written_field_is_read_back_and_others_are_kept() {
    let word = 0xA5A5_5A5A;
    let written = set_field(word, 8, 5, 0x13);
    assert_eq!(get_field(written, 8, 5), 0x13);
    assert_eq!(get_field(written, 0, 8), get_field(word, 0, 8));
    assert_eq!(get_field(written, 13, 19), get_field(word, 13, 19));
    assert_eq!(set_field(word, 8, 5, get_field(word, 8, 5)), word);
}

#[test]
fn registers_start_at_their_power_on_values() {
    assert_eq!(GConf::new().to_word(), 0);
    assert_eq!(GStat::new().to_word(), 0);
    assert_eq!(NodeConf::new().to_word(), 0);
    assert_eq!(OtpProg::new().to_word(), 0);
    assert_eq!(ShortConf::new().to_word(), 0x0001_0606);
    assert_eq!(DrvConf::new().to_word(), 0x0008_0400);
    assert_eq!(IHoldIRun::new().to_word(), 0);
    assert_eq!(SwMode::new().to_word(), 0);
    assert_eq!(RampStat::new().to_word(), 0);
    assert_eq!(EncMode::new().to_word(), 0);
    assert_eq!(EncStatus::new().to_word(), 0);
    assert_eq!(MsLutSel::new().to_word(), 0xFFFF_8056);
    assert_eq!(ChopConf::new().to_word(), 0x1041_0150);
    assert_eq!(CoolConf::new().to_word(), 0);
    assert_eq!(DrvStatus::new().to_word(), 0);
    assert_eq!(PwmConf::new().to_word(), 0xC40C_001E);
    assert_eq!(SpiStatus::new().to_byte(), 0);
}

#[test]
fn chop_conf_power_on_fields() {
    let register = ChopConf::new();
    assert_eq!(register.toff(), 0);
    assert_eq!(register.hstrt(), 5);
    assert_eq!(register.hend(), 2);
    assert!(!register.fd3());
    assert!(!register.disfdcc());
    assert!(!register.chm());
    assert_eq!(register.tbl(), 2);
    assert!(!register.vhighfs());
    assert!(!register.vhighchm());
    assert_eq!(register.tpfd(), 4);
    assert_eq!(register.mres(), 0);
    assert!(register.intpol());
    assert!(!register.dedge());
    assert!(!register.diss2g());
    assert!(!register.diss2vs());
}

#[test]
fn pwm_conf_power_on_fields() {
    let register = PwmConf::new();
    assert_eq!(register.pwm_ofs(), 30);
    assert_eq!(register.pwm_grad(), 0);
    assert_eq!(register.pwm_freq(), 0);
    assert!(register.pwm_autoscale());
    assert!(register.pwm_autograd());
    assert_eq!(register.freewheel(), 0);
    assert_eq!(register.pwm_reg(), 4);
    assert_eq!(register.pwm_lim(), 12);
}

#[test]
fn short_and_drv_conf_power_on_fields() {
    let short = ShortConf::new();
    assert_eq!(short.s2vs_level(), 6);
    assert_eq!(short.s2g_level(), 6);
    assert_eq!(short.short_filter(), 1);
    assert!(!short.short_delay());
    let drv = DrvConf::new();
    assert_eq!(drv.bbm_time(), 0);
    assert_eq!(drv.bbm_clks(), 4);
    assert_eq!(drv.ot_select(), 0);
    assert_eq!(drv.drv_strength(), 2);
    assert_eq!(drv.filt_isense(), 0);
}

#[test]
fn ms_lut_sel_power_on_fields() {
    let register = MsLutSel::new();
    assert_eq!(register.w0(), 2);
    assert_eq!(register.w1(), 1);
    assert_eq!(register.w2(), 1);
    assert_eq!(register.w3(), 1);
    assert_eq!(register.x1(), 0x80);
    assert_eq!(register.x2(), 0xFF);
    assert_eq!(register.x3(), 0xFF);
}

#[test]
fn chop_conf_fields_go_to_their_places() {
    let mut register = ChopConf::from_word(0);
    register.set_toff(3);
    assert_eq!(register.to_word(), 0x0000_0003);
    register.set_hstrt(4);
    assert_eq!(register.to_word(), 0x0000_0043);
    register.set_hend(1);
    assert_eq!(register.to_word(), 0x0000_00C3);
    register.set_tbl(2);
    assert_eq!(register.to_word(), 0x0001_00C3);
    register.set_mres(8);
    assert_eq!(register.to_word(), 0x0801_00C3);
    register.set_diss2vs(true);
    assert_eq!(register.to_word(), 0x8801_00C3);
    assert_eq!(register.toff(), 3);
    assert_eq!(register.hstrt(), 4);
    assert_eq!(register.hend(), 1);
    assert_eq!(register.tbl(), 2);
    assert_eq!(register.mres(), 8);
    assert!(register.diss2vs());
    assert_eq!(register.tpfd(), 0);
}

#[test]
fn chop_conf_reserved_bits_stay_zero() {
    let mut register = ChopConf::from_word(0);
    register.set_toff(0xF);
    register.set_hstrt(7);
    register.set_hend(0xF);
    register.set_fd3(true);
    register.set_disfdcc(true);
    register.set_chm(true);
    register.set_tbl(3);
    register.set_vhighfs(true);
    register.set_vhighchm(true);
    register.set_tpfd(0xF);
    register.set_mres(0xF);
    register.set_intpol(true);
    register.set_dedge(true);
    register.set_diss2g(true);
    register.set_diss2vs(true);
    assert_eq!(register.to_word(), 0xFFFF_FFFF & !((1 << 13) | (1 << 17)));
}

#[test]
fn value_wider_than_its_field_is_cut() {
    let mut register = ChopConf::from_word(0);
    register.set_hstrt(0xFF);
    assert_eq!(register.hstrt(), 7);
    assert_eq!(register.to_word(), 0x70);
    let mut current = IHoldIRun::new();
    current.set_irun(0x3F);
    assert_eq!(current.irun(), 0x1F);
    assert_eq!(current.ihold(), 0);
    assert_eq!(current.ihold_delay(), 0);
}

#[test]
fn g_conf_flags_have_their_bits() {
    let mut register = GConf::new();
    register.set_recalibrate(true);
    assert_eq!(register.to_word(), 1 << 0);
    register.set_recalibrate(false);
    register.set_en_pwm_mode(true);
    assert_eq!(register.to_word(), 1 << 2);
    register.set_shaft(true);
    assert_eq!(register.to_word(), (1 << 2) | (1 << 4));
    register.set_test_mode(true);
    assert_eq!(register.to_word(), (1 << 2) | (1 << 4) | (1 << 17));
    assert!(register.en_pwm_mode());
    assert!(register.shaft());
    assert!(register.test_mode());
    assert!(!register.recalibrate());
    assert!(!register.direct_mode());
    register.set_shaft(false);
    assert!(!register.shaft());
    assert!(register.en_pwm_mode());
}

#[test]
fn i_hold_i_run_fields() {
    let mut register = IHoldIRun::new();
    register.set_ihold(8);
    register.set_irun(31);
    register.set_ihold_delay(6);
    assert_eq!(register.to_word(), 0x0006_1F08);
    let decoded = IHoldIRun::from_word(0x0006_1F08);
    assert_eq!(decoded.ihold(), 8);
    assert_eq!(decoded.irun(), 31);
    assert_eq!(decoded.ihold_delay(), 6);
    assert_eq!(decoded, register);
}

#[test]
fn cool_conf_fields() {
    let mut register = CoolConf::new();
    register.set_semin(5);
    register.set_seup(2);
    register.set_semax(2);
    register.set_sedn(1);
    register.set_seimin(true);
    register.set_sgt(0x7F);
    register.set_sfilt(true);
    assert_eq!(
        register.to_word(),
        5 | (2 << 5) | (2 << 8) | (1 << 13) | (1 << 15) | (0x7F << 16) | (1 << 24)
    );
    assert_eq!(register.sgt(), 0x7F);
}

#[test]
fn sw_mode_and_enc_mode_flags() {
    let mut switches = SwMode::new();
    switches.set_stop_l_enable(true);
    switches.set_sg_stop(true);
    switches.set_en_softstop(true);
    assert_eq!(switches.to_word(), 1 | (1 << 10) | (1 << 11));
    let mut encoder = EncMode::new();
    encoder.set_pol_n(true);
    encoder.set_enc_sel_decimal(true);
    assert_eq!(encoder.to_word(), (1 << 2) | (1 << 10));
}

#[test]
fn node_conf_and_otp_prog_fields() {
    let mut node = NodeConf::new();
    node.set_node_addr(0xAB);
    node.set_send_delay(0xC);
    assert_eq!(node.to_word(), 0x0CAB);
    let mut otp = OtpProg::new();
    otp.set_otp_bit(5);
    otp.set_otp_byte(0);
    otp.set_otp_magic(0xBD);
    assert_eq!(otp.to_word(), 0xBD05);
}

#[test]
fn drv_status_is_decoded() {
    let status = DrvStatus::from_word(0x8115_2123);
    assert_eq!(status.sg_result(), 0x123);
    assert!(!status.s2vsa());
    assert!(status.s2vsb());
    assert!(!status.stealth());
    assert!(!status.fsactive());
    assert_eq!(status.cs_actual(), 0x15);
    assert!(status.stallguard());
    assert!(!status.ot());
    assert!(status.standstill());
    assert_eq!(status.to_word(), 0x8115_2123);
}

#[test]
fn ramp_stat_is_decoded_and_encoded() {
    let status = RampStat::from_word((1 << 9) | (1 << 8) | (1 << 1));
    assert!(status.position_reached());
    assert!(status.velocity_reached());
    assert!(status.status_stop_r());
    assert!(!status.status_stop_l());
    assert!(!status.vzero());
    let mut clear = RampStat::new();
    clear.set_event_stop_l(true);
    clear.set_event_stop_r(true);
    clear.set_event_stop_sg(true);
    clear.set_event_pos_reached(true);
    assert_eq!(clear.to_word(), 0xF0);
}

#[test]
fn g_stat_and_enc_status_flags() {
    let status = GStat::from_word(0b101);
    assert!(status.reset());
    assert!(!status.drv_err());
    assert!(status.uv_cp());
    let encoder = EncStatus::from_word(0b10);
    assert!(!encoder.n_event());
    assert!(encoder.deviation_warn());
}

#[test]
fn spi_status_reads_its_flags() {
    let status = SpiStatus::from_byte(0b0000_1001);
    assert!(status.reset_flag());
    assert!(!status.driver_error());
    assert!(!status.sg2());
    assert!(status.standstill());
    assert!(!status.velocity_reached());
    assert!(!status.position_reached());
    assert!(!status.status_stop_l());
    assert!(!status.status_stop_r());
    let other = SpiStatus::from_bytes([0b1111_0110]);
    assert!(!other.reset_flag());
    assert!(other.driver_error());
    assert!(other.sg2());
    assert!(!other.standstill());
    assert!(other.velocity_reached());
    assert!(other.position_reached());
    assert!(other.status_stop_l());
    assert!(other.status_stop_r());
    assert_eq!(other.into_bytes(), [0b1111_0110]);
    assert_eq!(other.to_byte(), 0b1111_0110);
}

#[test]
fn every_register_round_trips_through_its_word() {
    for word in [0u32, 1, 0x8000_0000, 0x1234_5678, 0xA5A5_5A5A, 0xFFFF_FFFF] {
        assert_eq!(GConf::from_word(word).to_word(), word);
        assert_eq!(GStat::from_word(word).to_word(), word);
        assert_eq!(NodeConf::from_word(word).to_word(), word);
        assert_eq!(OtpProg::from_word(word).to_word(), word);
        assert_eq!(ShortConf::from_word(word).to_word(), word);
        assert_eq!(DrvConf::from_word(word).to_word(), word);
        assert_eq!(IHoldIRun::from_word(word).to_word(), word);
        assert_eq!(SwMode::from_word(word).to_word(), word);
        assert_eq!(RampStat::from_word(word).to_word(), word);
        assert_eq!(EncMode::from_word(word).to_word(), word);
        assert_eq!(EncStatus::from_word(word).to_word(), word);
        assert_eq!(MsLutSel::from_word(word).to_word(), word);
        assert_eq!(ChopConf::from_word(word).to_word(), word);
        assert_eq!(CoolConf::from_word(word).to_word(), word);
        assert_eq!(DrvStatus::from_word(word).to_word(), word);
        assert_eq!(PwmConf::from_word(word).to_word(), word);
    }
}

#[test]
fn fields_round_trip_through_the_word() {
    let mut register = PwmConf::from_word(0);
    register.set_pwm_ofs(0x12);
    register.set_pwm_grad(0x34);
    register.set_pwm_freq(2);
    register.set_pwm_autoscale(true);
    register.set_pwm_autograd(false);
    register.set_freewheel(1);
    register.set_pwm_reg(9);
    register.set_pwm_lim(0xA);
    let decoded = PwmConf::from_word(register.to_word());
    assert_eq!(decoded, register);
    assert_eq!(decoded.pwm_ofs(), 0x12);
    assert_eq!(decoded.pwm_grad(), 0x34);
    assert_eq!(decoded.pwm_freq(), 2);
    assert!(decoded.pwm_autoscale());
    assert!(!decoded.pwm_autograd());
    assert_eq!(decoded.freewheel(), 1);
    assert_eq!(decoded.pwm_reg(), 9);
    assert_eq!(decoded.pwm_lim(), 0xA);
    assert_eq!(register.to_word(), 0xA916_3412);
}

#[test]
fn register_bytes_are_little_endian() {
    let register = ChopConf::new();
    assert_eq!(register.into_bytes(), [0x50, 0x01, 0x41, 0x10]);
    assert_eq!(ChopConf::from_bytes([0x50, 0x01, 0x41, 0x10]), register);
    assert_eq!(swap_bytes(register.into_bytes()), [0x10, 0x41, 0x01, 0x50]);
}

#[test]
fn register_addresses() {
    assert_eq!(Registers::GCONF.addr(), 0x00);
    assert_eq!(Registers::GSTAT.addr(), 0x01);
    assert_eq!(Registers::GLOBALSCALER.addr(), 0x0B);
    assert_eq!(Registers::IHOLD_IRUN.addr(), 0x10);
    assert_eq!(Registers::RAMPMODE.addr(), 0x20);
    assert_eq!(Registers::XACTUAL.addr(), 0x21);
    assert_eq!(Registers::VACTUAL.addr(), 0x22);
    assert_eq!(Registers::A1.addr(), 0x24);
    assert_eq!(Registers::AMAX.addr(), 0x26);
    assert_eq!(Registers::VMAX.addr(), 0x27);
    assert_eq!(Registers::DMAX.addr(), 0x28);
    assert_eq!(Registers::D1.addr(), 0x2A);
    assert_eq!(Registers::XTARGET.addr(), 0x2D);
    assert_eq!(Registers::SW_MODE.addr(), 0x34);
    assert_eq!(Registers::RAMP_STAT.addr(), 0x35);
    assert_eq!(Registers::ENC_STATUS.addr(), 0x3B);
    assert_eq!(Registers::CHOPCONF.addr(), 0x6C);
    assert_eq!(Registers::DRV_STATUS.addr(), 0x6F);
    assert_eq!(Registers::PWMCONF.addr(), 0x70);
    assert_eq!(Registers::LOST_STEPS.addr(), 0x73);
}

#[test]
fn ramp_mode_codes() {
    assert_eq!(RampMode::PositioningMode.code(), 0);
    assert_eq!(RampMode::VelocityPositive.code(), 1);
    assert_eq!(RampMode::VelocityNegative.code(), 2);
    assert_eq!(RampMode::HoldMode.code(), 3);
}
