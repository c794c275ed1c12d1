//! The driver: the chip's configuration as the caller last set it, and the
//! operation in progress.
//!
//! The driver does no input or output. Each operation is started by a method
//! that returns the first [`Action`]; the caller carries the action out on its
//! pins and its bus and hands the outcome to [`Tmc5160::resume`], which returns
//! the next action, until the action is [`Action::Done`] with the operation's
//! answer. One operation is carried to its end before the next is started.
//!
//! One action is no work on the hardware: with [`Action::Scale`] a stop asks
//! which word is to be written as the target for the position that it has
//! read. The caller answers with the word; the driver writes it.

use vstd::prelude::*;
use crate::registers::{
    Address, ChopConf, CoolConf, DrvConf, EncMode, GConf, IHoldIRun, MsLutSel, NodeConf, OtpProg,
    PwmConf, RampMode, RampStat, Registers, ShortConf, SpiStatus, SwMode,
};
use crate::request::{Decode, Reply, Request};
use crate::sequencer::{Action, Event, Sequencer};
use crate::units::{clamped, from_signed, unsigned, MotorContext};
use crate::wire::{be_value, from_be_bytes, swap_bytes};

verus! {

/// The clock polarity of the serial bus.
#[derive(Clone, Copy, Debug, PartialEq, Eq, Structural)]
pub enum Polarity {
    /// The clock rests low.
    IdleLow,
    /// The clock rests high.
    IdleHigh,
}

/// The clock edge on which the serial bus takes its data.
#[derive(Clone, Copy, Debug, PartialEq, Eq, Structural)]
pub enum Phase {
    /// Data is taken on the first edge of a clock pulse.
    CaptureOnFirstTransition,
    /// Data is taken on the second edge of a clock pulse.
    CaptureOnSecondTransition,
}

/// The clocking of a serial bus.
#[derive(Clone, Copy, Debug, PartialEq, Eq, Structural)]
pub struct Mode {
    /// The edge on which data is taken.
    pub phase: Phase,
    /// The level at which the clock rests.
    pub polarity: Polarity,
}

/// The clocking that the chip expects: the clock rests high and data is taken
/// on the second edge.
pub fn mode() -> (mode: Mode)
    ensures
        mode.phase == Phase::CaptureOnSecondTransition,
        mode.polarity == Polarity::IdleHigh,
{
    Mode { phase: Phase::CaptureOnSecondTransition, polarity: Polarity::IdleHigh }
}

/// The driver of one chip.
pub struct Tmc5160<E> {
    /// The status byte that the chip sent last, as kept by the operations that
    /// keep it.
    pub status: SpiStatus,
    /// The bytes of the last reply, as kept by a read of the global status.
    pub debug: [u8; 5],
    /// Whether an enable pin is attached.
    pub attached: bool,
    /// Whether the enable pin switches the motor on when it is high.
    pub inverted: bool,
    /// The clock and the microstep resolution that physical units are converted
    /// by.
    pub context: MotorContext,
    /// The maximum velocity that was set last, in full steps per second, rounded
    /// to a whole number.
    pub v_max: u32,
    /// The maximum velocity that was set last, in the chip's unit: the word
    /// that was written, which loses nothing.
    pub v_max_raw: u32,
    /// The global configuration to write with `update_g_conf`.
    pub g_conf: GConf,
    /// The single-wire interface configuration.
    pub node_conf: NodeConf,
    /// The one-time programmable memory command.
    pub otp_prog: OtpProg,
    /// The short-circuit detector configuration.
    pub short_conf: ShortConf,
    /// The power-stage configuration.
    pub drv_conf: DrvConf,
    /// The motor current configuration to write with `update_ihold_irun`.
    pub ihold_irun: IHoldIRun,
    /// The reference switch configuration to write with `update_sw_mode`.
    pub sw_mode: SwMode,
    /// The encoder configuration to write with `update_enc_mode`.
    pub enc_mode: EncMode,
    /// The microstep table segmentation.
    pub ms_lut_sel: MsLutSel,
    /// The chopper configuration to write with `update_chop_conf`.
    pub chop_conf: ChopConf,
    /// The load-adaptive current control configuration to write with `update_cool_conf`.
    pub cool_conf: CoolConf,
    /// The voltage-PWM chopper configuration to write with `update_pwm_conf`.
    pub pwm_conf: PwmConf,
    /// The operation that was started last.
    pub request: Request,
    /// How far that operation has come.
    pub sequencer: Sequencer<E>,
}

impl<E> Tmc5160<E> {
    /// No operation is in progress.
    pub open spec fn spec_is_idle(&self) -> bool {
        self.sequencer.spec_is_idle()
    }

    /// The driver after the operation in progress has ended with `reply` as its
    /// last reply: the status byte and the reply are kept where the operation
    /// keeps them.
    pub open spec fn kept(self, reply: [u8; 5]) -> Self {
        Tmc5160 {
            status: if self.request.spec_keeps_status() {
                self.request.spec_packet(reply, self.sequencer.word).status
            } else {
                self.status
            },
            debug: if self.request.spec_keeps_debug() {
                self.request.spec_packet(reply, self.sequencer.word).debug
            } else {
                self.debug
            },
            ..self
        }
    }

    /// The driver and its next action, given the next action of its sequencer.
    /// Pin and bus actions and the ask for a word are passed on. At the end of a successful operation
    /// the answer is made out of the last reply; a failure is passed on and
    /// changes nothing in the driver.
    pub open spec fn concluded(self, action: Action<[u8; 5], E>) -> (Self, Action<Reply, E>) {
        match action {
            Action::SetEnable(level) => (self, Action::SetEnable(level)),
            Action::SetChipSelect(level) => (self, Action::SetChipSelect(level)),
            Action::Transfer(frame) => (self, Action::Transfer(frame)),
            Action::Scale(steps) => (self, Action::Scale(steps)),
            Action::Done(Ok(reply)) => (
                self.kept(reply),
                Action::Done(
                    Ok(self.request.spec_answer(reply, self.context, self.sequencer.word)),
                ),
            ),
            Action::Done(Err(error)) => (self, Action::Done(Err(error))),
        }
    }

    /// The driver and its first action when `request` is started.
    pub open spec fn spec_begin(self, request: Request) -> (Self, Action<Reply, E>) {
        let start = Sequencer::<E>::spec_begin(request.spec_script(self.attached, self.inverted));
        Tmc5160 { request, sequencer: start.0, ..self }.concluded(start.1)
    }

    /// The driver and its next action after an event.
    pub open spec fn spec_resume(self, event: Event<E>) -> (Self, Action<Reply, E>) {
        let next = self.sequencer.spec_resume(event);
        Tmc5160 { sequencer: next.0, ..self }.concluded(next.1)
    }

    /// A driver without an enable pin, with every configuration register as the
    /// chip holds it after power-on.
    pub fn new() -> (driver: Self)
        ensures
            driver.spec_is_idle(),
            !driver.attached,
            !driver.inverted,
            driver.context == MotorContext::new(),
            driver.v_max == 0,
            driver.v_max_raw == 0,
            driver.status.byte == 0,
            driver.debug@ == seq![0u8, 0u8, 0u8, 0u8, 0u8],
            driver.request == Request::Enable,
            driver.sequencer == Sequencer::<E>::spec_new(),
            driver.g_conf == GConf::new(),
            driver.node_conf == NodeConf::new(),
            driver.otp_prog == OtpProg::new(),
            driver.short_conf == ShortConf::new(),
            driver.drv_conf == DrvConf::new(),
            driver.ihold_irun == IHoldIRun::new(),
            driver.sw_mode == SwMode::new(),
            driver.enc_mode == EncMode::new(),
            driver.ms_lut_sel == MsLutSel::new(),
            driver.chop_conf == ChopConf::new(),
            driver.cool_conf == CoolConf::new(),
            driver.pwm_conf == PwmConf::new(),
    {
        let debug: [u8; 5] = [0, 0, 0, 0, 0];
        assert(debug@ =~= seq![0u8, 0u8, 0u8, 0u8, 0u8]);
        Tmc5160 {
            status: SpiStatus::new(),
            debug,
            attached: false,
            inverted: false,
            context: MotorContext::new(),
            v_max: 0,
            v_max_raw: 0,
            g_conf: GConf::new(),
            node_conf: NodeConf::new(),
            otp_prog: OtpProg::new(),
            short_conf: ShortConf::new(),
            drv_conf: DrvConf::new(),
            ihold_irun: IHoldIRun::new(),
            sw_mode: SwMode::new(),
            enc_mode: EncMode::new(),
            ms_lut_sel: MsLutSel::new(),
            chop_conf: ChopConf::new(),
            cool_conf: CoolConf::new(),
            pwm_conf: PwmConf::new(),
            request: Request::Enable,
            sequencer: Sequencer::new(),
        }
    }

    /// The driver with an enable pin attached.
    pub fn attach_en(self) -> (driver: Self)
        ensures
            driver == (Tmc5160 { attached: true, ..self }),
    {
        let mut driver = self;
        driver.attached = true;
        driver
    }

    /// The driver with its enable pin inverted or not.
    pub fn en_inverted(self, inv: bool) -> (driver: Self)
        ensures
            driver == (Tmc5160 { inverted: inv, ..self }),
    {
        let mut driver = self;
        driver.inverted = inv;
        driver
    }

    /// The driver for a chip with another clock frequency, in hertz. The clock
    /// is 12 MHz unless it is set.
    pub fn clock(self, clock_hz: u32) -> (driver: Self)
        ensures
            driver == (Tmc5160 { context: MotorContext { clock_hz, ..self.context }, ..self }),
    {
        let mut driver = self;
        driver.context = driver.context.clock(clock_hz);
        driver
    }

    /// The driver for a motor with another number of microsteps in a full step.
    /// The number is 256 unless it is set.
    pub fn step_count(self, microsteps: u32) -> (driver: Self)
        ensures
            driver == (Tmc5160 { context: MotorContext { microsteps, ..self.context }, ..self }),
    {
        let mut driver = self;
        driver.context = driver.context.step_count(microsteps);
        driver
    }

    /// The maximum velocity that was set last, in full steps per second.
    pub fn get_velocity_max(&mut self) -> (v_max: u32)
        ensures
            v_max == old(self).v_max,
            *final(self) == *old(self),
    {
        self.v_max
    }

    /// Whether no operation is in progress.
    #[verifier::when_used_as_spec(spec_is_idle)]
    pub fn is_idle(&self) -> (idle: bool)
        ensures
            idle == self.spec_is_idle(),
    {
        self.sequencer.is_idle()
    }

    /// Passes an action of the sequencer on; at the end of a successful operation
    /// keeps what the operation keeps and makes the answer.
    fn conclude(&mut self, action: Action<[u8; 5], E>) -> (next: Action<Reply, E>)
        ensures
            (*final(self), next) == old(self).concluded(action),
    {
        match action {
            Action::SetEnable(level) => Action::SetEnable(level),
            Action::SetChipSelect(level) => Action::SetChipSelect(level),
            Action::Transfer(frame) => Action::Transfer(frame),
            Action::Scale(steps) => Action::Scale(steps),
            Action::Done(Ok(reply)) => {
                let packet = self.request.packet(reply, self.sequencer.word);
                if self.request.keeps_status() {
                    self.status = packet.status;
                }
                if self.request.keeps_debug() {
                    self.debug = packet.debug;
                }
                Action::Done(Ok(self.request.answer(reply, self.context, self.sequencer.word)))
            },
            Action::Done(Err(error)) => Action::Done(Err(error)),
        }
    }

    /// Starts an operation and names its first action.
    pub fn begin(&mut self, request: Request) -> (action: Action<Reply, E>)
        requires
            old(self).spec_is_idle(),
        ensures
            (*final(self), action) == old(self).spec_begin(request),
    {
        let script = request.script(self.attached, self.inverted);
        let (sequencer, action) = Sequencer::begin(script);
        self.request = request;
        self.sequencer = sequencer;
        self.conclude(action)
    }

    /// Takes in how the last action went and names the next one.
    pub fn resume(&mut self, event: Event<E>) -> (action: Action<Reply, E>)
        requires
            !old(self).spec_is_idle(),
        ensures
            (*final(self), action) == old(self).spec_resume(event),
    {
        let action = self.sequencer.resume(event);
        self.conclude(action)
    }

    /// Starts a read of a register. The answer is the packet of the second of
    /// the two exchanges.
    pub fn read_register<T: Address + Copy>(&mut self, reg: T) -> (action: Action<Reply, E>)
        requires
            old(self).spec_is_idle(),
        ensures
            (*final(self), action) == old(self).spec_begin(
                Request::Read(reg.spec_addr(), Decode::Packet),
            ),
    {
        self.begin(Request::Read(reg.addr(), Decode::Packet))
    }

    /// Starts a write of four bytes, most significant first, to a register. The
    /// answer is the packet of the exchange; its data word is what the register
    /// held before the write.
    pub fn write_register<T: Address + Copy>(&mut self, reg: T, val: &mut [u8; 4]) -> (action:
        Action<Reply, E>)
        requires
            old(self).spec_is_idle(),
        ensures
            *final(val) == *old(val),
            (*final(self), action) == old(self).spec_begin(
                Request::Write(reg.spec_addr(), be_value(old(val)@) as u32),
            ),
    {
        let data = from_be_bytes(*val);
        self.begin(Request::Write(reg.addr(), data))
    }

    /// Starts a best-effort read of the register with the number `register`:
    /// two exchanges whose failures are passed over. The answer is the five
    /// bytes last received, or `buffer` as it was given if no transfer took
    /// place.
    pub fn old_read_register(&mut self, register: u8, buffer: &[u8; 5]) -> (action: Action<
        Reply,
        E,
    >)
        requires
            old(self).spec_is_idle(),
        ensures
            (*final(self), action) == old(self).spec_begin(Request::OldRead(register, *buffer)),
    {
        self.begin(Request::OldRead(register, *buffer))
    }

    /// Starts a best-effort write of four bytes, most significant first, to the
    /// register with the number `register`: failures are passed over. The
    /// answer is the status byte received, or zero if the transfer failed.
    pub fn old_write_register(&mut self, register: u8, payload: &[u8; 4]) -> (action: Action<
        Reply,
        E,
    >)
        requires
            old(self).spec_is_idle(),
        ensures
            (*final(self), action) == old(self).spec_begin(
                Request::OldWrite(register, be_value(payload@) as u32),
            ),
    {
        let data = from_be_bytes(*payload);
        self.begin(Request::OldWrite(register, data))
    }

    /// Starts switching the motor on by the enable pin. Without an enable pin the
    /// operation is over at once.
    pub fn enable(&mut self) -> (action: Action<Reply, E>)
        requires
            old(self).spec_is_idle(),
        ensures
            (*final(self), action) == old(self).spec_begin(Request::Enable),
    {
        self.begin(Request::Enable)
    }

    /// Starts switching the motor off by the enable pin. Without an enable pin the
    /// operation is over at once.
    pub fn disable(&mut self) -> (action: Action<Reply, E>)
        requires
            old(self).spec_is_idle(),
        ensures
            (*final(self), action) == old(self).spec_begin(Request::Disable),
    {
        self.begin(Request::Disable)
    }

    /// Starts clearing the three flags of the global status.
    pub fn clear_g_stat(&mut self) -> (action: Action<Reply, E>)
        requires
            old(self).spec_is_idle(),
        ensures
            (*final(self), action) == old(self).spec_begin(Request::Write(Registers::GSTAT.spec_addr(), 0b111)),
    {
        self.begin(Request::Write(Registers::GSTAT.addr(), 0b111))
    }

    /// Starts clearing the flags of the encoder status.
    pub fn clear_enc_status(&mut self) -> (action: Action<Reply, E>)
        requires
            old(self).spec_is_idle(),
        ensures
            (*final(self), action) == old(self).spec_begin(Request::Write(Registers::ENC_STATUS.spec_addr(), 0b111)),
    {
        self.begin(Request::Write(Registers::ENC_STATUS.addr(), 0b111))
    }

    /// Starts writing `ramp_stat` to the ramp status, which clears the event flags that are set in it to the chip.
    pub fn write_ramp_stat(&mut self, ramp_stat: RampStat) -> (action: Action<Reply, E>)
        requires
            old(self).spec_is_idle(),
        ensures
            (*final(self), action) == old(self).spec_begin(
                Request::Write(Registers::RAMP_STAT.spec_addr(), ramp_stat.word),
            ),
    {
        let value = swap_bytes(ramp_stat.into_bytes());
        self.begin(Request::Write(Registers::RAMP_STAT.addr(), from_be_bytes(value)))
    }

    /// Starts writing the driver's reference switch configuration to the chip.
    pub fn update_sw_mode(&mut self) -> (action: Action<Reply, E>)
        requires
            old(self).spec_is_idle(),
        ensures
            (*final(self), action) == old(self).spec_begin(
                Request::Write(Registers::SW_MODE.spec_addr(), old(self).sw_mode.word),
            ),
    {
        let value = swap_bytes(self.sw_mode.into_bytes());
        self.begin(Request::Write(Registers::SW_MODE.addr(), from_be_bytes(value)))
    }

    /// Starts writing the driver's global configuration to the chip.
    pub fn update_g_conf(&mut self) -> (action: Action<Reply, E>)
        requires
            old(self).spec_is_idle(),
        ensures
            (*final(self), action) == old(self).spec_begin(
                Request::Write(Registers::GCONF.spec_addr(), old(self).g_conf.word),
            ),
    {
        let value = swap_bytes(self.g_conf.into_bytes());
        self.begin(Request::Write(Registers::GCONF.addr(), from_be_bytes(value)))
    }

    /// Starts writing the driver's chopper configuration to the chip.
    pub fn update_chop_conf(&mut self) -> (action: Action<Reply, E>)
        requires
            old(self).spec_is_idle(),
        ensures
            (*final(self), action) == old(self).spec_begin(
                Request::Write(Registers::CHOPCONF.spec_addr(), old(self).chop_conf.word),
            ),
    {
        let value = swap_bytes(self.chop_conf.into_bytes());
        self.begin(Request::Write(Registers::CHOPCONF.addr(), from_be_bytes(value)))
    }

    /// Starts writing the driver's load-adaptive current control configuration to the chip.
    pub fn update_cool_conf(&mut self) -> (action: Action<Reply, E>)
        requires
            old(self).spec_is_idle(),
        ensures
            (*final(self), action) == old(self).spec_begin(
                Request::Write(Registers::COOLCONF.spec_addr(), old(self).cool_conf.word),
            ),
    {
        let value = swap_bytes(self.cool_conf.into_bytes());
        self.begin(Request::Write(Registers::COOLCONF.addr(), from_be_bytes(value)))
    }

    /// Starts writing the driver's motor current configuration to the chip.
    pub fn update_ihold_irun(&mut self) -> (action: Action<Reply, E>)
        requires
            old(self).spec_is_idle(),
        ensures
            (*final(self), action) == old(self).spec_begin(
                Request::Write(Registers::IHOLD_IRUN.spec_addr(), old(self).ihold_irun.word),
            ),
    {
        let value = swap_bytes(self.ihold_irun.into_bytes());
        self.begin(Request::Write(Registers::IHOLD_IRUN.addr(), from_be_bytes(value)))
    }

    /// Starts writing the driver's voltage-PWM chopper configuration to the chip.
    pub fn update_pwm_conf(&mut self) -> (action: Action<Reply, E>)
        requires
            old(self).spec_is_idle(),
        ensures
            (*final(self), action) == old(self).spec_begin(
                Request::Write(Registers::PWMCONF.spec_addr(), old(self).pwm_conf.word),
            ),
    {
        let value = swap_bytes(self.pwm_conf.into_bytes());
        self.begin(Request::Write(Registers::PWMCONF.addr(), from_be_bytes(value)))
    }

    /// Starts writing the driver's encoder configuration to the chip.
    pub fn update_enc_mode(&mut self) -> (action: Action<Reply, E>)
        requires
            old(self).spec_is_idle(),
        ensures
            (*final(self), action) == old(self).spec_begin(
                Request::Write(Registers::ENCMODE.spec_addr(), old(self).enc_mode.word),
            ),
    {
        let value = swap_bytes(self.enc_mode.into_bytes());
        self.begin(Request::Write(Registers::ENCMODE.addr(), from_be_bytes(value)))
    }

    /// Starts writing `val` to the global current scaler.
    pub fn set_global_scaler(&mut self, val: u32) -> (action: Action<Reply, E>)
        requires
            old(self).spec_is_idle(),
        ensures
            (*final(self), action) == old(self).spec_begin(Request::Write(Registers::GLOBALSCALER.spec_addr(), val)),
    {
        self.begin(Request::Write(Registers::GLOBALSCALER.addr(), val))
    }

    /// Starts writing `val` to the power-down delay.
    pub fn set_tpowerdown(&mut self, val: u32) -> (action: Action<Reply, E>)
        requires
            old(self).spec_is_idle(),
        ensures
            (*final(self), action) == old(self).spec_begin(Request::Write(Registers::TPOWERDOWN.spec_addr(), val)),
    {
        self.begin(Request::Write(Registers::TPOWERDOWN.addr(), val))
    }

    /// Starts writing `val` to the upper velocity limit of the silent chopper.
    pub fn set_tpwmthrs(&mut self, val: u32) -> (action: Action<Reply, E>)
        requires
            old(self).spec_is_idle(),
        ensures
            (*final(self), action) == old(self).spec_begin(Request::Write(Registers::TPWMTHRS.spec_addr(), val)),
    {
        self.begin(Request::Write(Registers::TPWMTHRS.addr(), val))
    }

    /// Starts writing `val` to the lower velocity limit of load-adaptive current control.
    pub fn set_tcoolthrs(&mut self, val: u32) -> (action: Action<Reply, E>)
        requires
            old(self).spec_is_idle(),
        ensures
            (*final(self), action) == old(self).spec_begin(Request::Write(Registers::TCOOLTHRS.spec_addr(), val)),
    {
        self.begin(Request::Write(Registers::TCOOLTHRS.addr(), val))
    }

    /// Starts writing `val` to the first acceleration.
    pub fn set_a1(&mut self, val: u32) -> (action: Action<Reply, E>)
        requires
            old(self).spec_is_idle(),
        ensures
            (*final(self), action) == old(self).spec_begin(Request::Write(Registers::A1.spec_addr(), val)),
    {
        self.begin(Request::Write(Registers::A1.addr(), val))
    }

    /// Starts writing `val` to the velocity between the two acceleration phases.
    pub fn set_v1(&mut self, val: u32) -> (action: Action<Reply, E>)
        requires
            old(self).spec_is_idle(),
        ensures
            (*final(self), action) == old(self).spec_begin(Request::Write(Registers::V1.spec_addr(), val)),
    {
        self.begin(Request::Write(Registers::V1.addr(), val))
    }

    /// Starts writing `val` to the second acceleration.
    pub fn set_amax(&mut self, val: u32) -> (action: Action<Reply, E>)
        requires
            old(self).spec_is_idle(),
        ensures
            (*final(self), action) == old(self).spec_begin(Request::Write(Registers::AMAX.spec_addr(), val)),
    {
        self.begin(Request::Write(Registers::AMAX.addr(), val))
    }

    /// Starts writing `val` to the maximum velocity.
    pub fn set_vmax(&mut self, val: u32) -> (action: Action<Reply, E>)
        requires
            old(self).spec_is_idle(),
        ensures
            (*final(self), action) == old(self).spec_begin(Request::Write(Registers::VMAX.spec_addr(), val)),
    {
        self.begin(Request::Write(Registers::VMAX.addr(), val))
    }

    /// Starts writing `val` to the first deceleration.
    pub fn set_dmax(&mut self, val: u32) -> (action: Action<Reply, E>)
        requires
            old(self).spec_is_idle(),
        ensures
            (*final(self), action) == old(self).spec_begin(Request::Write(Registers::DMAX.spec_addr(), val)),
    {
        self.begin(Request::Write(Registers::DMAX.addr(), val))
    }

    /// Starts writing `val` to the second deceleration.
    pub fn set_d1(&mut self, val: u32) -> (action: Action<Reply, E>)
        requires
            old(self).spec_is_idle(),
        ensures
            (*final(self), action) == old(self).spec_begin(Request::Write(Registers::D1.spec_addr(), val)),
    {
        self.begin(Request::Write(Registers::D1.addr(), val))
    }

    /// Starts writing `val` to the start velocity.
    pub fn set_vstart(&mut self, val: u32) -> (action: Action<Reply, E>)
        requires
            old(self).spec_is_idle(),
        ensures
            (*final(self), action) == old(self).spec_begin(Request::Write(Registers::VSTART.spec_addr(), val)),
    {
        self.begin(Request::Write(Registers::VSTART.addr(), val))
    }

    /// Starts writing `val` to the stop velocity.
    pub fn set_vstop(&mut self, val: u32) -> (action: Action<Reply, E>)
        requires
            old(self).spec_is_idle(),
        ensures
            (*final(self), action) == old(self).spec_begin(Request::Write(Registers::VSTOP.spec_addr(), val)),
    {
        self.begin(Request::Write(Registers::VSTOP.addr(), val))
    }

    /// Starts writing `val` to the automatic voltage-PWM values.
    pub fn set_pwm_auto(&mut self, val: u32) -> (action: Action<Reply, E>)
        requires
            old(self).spec_is_idle(),
        ensures
            (*final(self), action) == old(self).spec_begin(Request::Write(Registers::PWM_AUTO.spec_addr(), val)),
    {
        self.begin(Request::Write(Registers::PWM_AUTO.addr(), val))
    }

    /// Starts selecting the ramp mode.
    pub fn set_rampmode(&mut self, val: RampMode) -> (action: Action<Reply, E>)
        requires
            old(self).spec_is_idle(),
        ensures
            (*final(self), action) == old(self).spec_begin(Request::Write(Registers::RAMPMODE.spec_addr(), val.spec_code())),
    {
        self.begin(Request::Write(Registers::RAMPMODE.addr(), val.code()))
    }

    /// Starts reading the phase offset calibration result. The answer is the data
    /// word.
    pub fn read_offset(&mut self) -> (action: Action<Reply, E>)
        requires
            old(self).spec_is_idle(),
        ensures
            (*final(self), action) == old(self).spec_begin(Request::Read(Registers::OFFSET_READ.spec_addr(), Decode::Word)),
    {
        self.begin(Request::Read(Registers::OFFSET_READ.addr(), Decode::Word))
    }

    /// Starts reading the measured time between two microsteps. The answer is the
    /// data word.
    pub fn read_tstep(&mut self) -> (action: Action<Reply, E>)
        requires
            old(self).spec_is_idle(),
        ensures
            (*final(self), action) == old(self).spec_begin(Request::Read(Registers::TSTEP.spec_addr(), Decode::Word)),
    {
        self.begin(Request::Read(Registers::TSTEP.addr(), Decode::Word))
    }

    /// Starts reading the driver status. The status byte of the reply is kept.
    pub fn read_drv_status(&mut self) -> (action: Action<Reply, E>)
        requires
            old(self).spec_is_idle(),
        ensures
            (*final(self), action) == old(self).spec_begin(Request::Read(Registers::DRV_STATUS.spec_addr(), Decode::DrvStatus)),
    {
        self.begin(Request::Read(Registers::DRV_STATUS.addr(), Decode::DrvStatus))
    }

    /// Starts reading the global status. The status byte and the bytes of the
    /// reply are kept.
    pub fn read_gstat(&mut self) -> (action: Action<Reply, E>)
        requires
            old(self).spec_is_idle(),
        ensures
            (*final(self), action) == old(self).spec_begin(Request::Read(Registers::GSTAT.spec_addr(), Decode::GStat)),
    {
        self.begin(Request::Read(Registers::GSTAT.addr(), Decode::GStat))
    }

    /// Starts reading the global configuration. The status byte of the reply is
    /// kept.
    pub fn read_gconf(&mut self) -> (action: Action<Reply, E>)
        requires
            old(self).spec_is_idle(),
        ensures
            (*final(self), action) == old(self).spec_begin(Request::Read(Registers::GCONF.spec_addr(), Decode::GConf)),
    {
        self.begin(Request::Read(Registers::GCONF.addr(), Decode::GConf))
    }

    /// Starts reading the ramp status. The status byte of the reply is kept.
    pub fn read_ramp_status(&mut self) -> (action: Action<Reply, E>)
        requires
            old(self).spec_is_idle(),
        ensures
            (*final(self), action) == old(self).spec_begin(Request::Read(Registers::RAMP_STAT.spec_addr(), Decode::RampStat)),
    {
        self.begin(Request::Read(Registers::RAMP_STAT.addr(), Decode::RampStat))
    }

    /// Starts reading the encoder status. The status byte of the reply is kept.
    pub fn read_enc_status(&mut self) -> (action: Action<Reply, E>)
        requires
            old(self).spec_is_idle(),
        ensures
            (*final(self), action) == old(self).spec_begin(Request::Read(Registers::ENC_STATUS.spec_addr(), Decode::EncStatus)),
    {
        self.begin(Request::Read(Registers::ENC_STATUS.addr(), Decode::EncStatus))
    }

    /// Starts making the present position the origin: zero is written to the
    /// actual position, then to the target position.
    pub fn set_home(&mut self) -> (action: Action<Reply, E>)
        requires
            old(self).spec_is_idle(),
        ensures
            (*final(self), action) == old(self).spec_begin(Request::SetHome),
    {
        self.begin(Request::SetHome)
    }

    /// Starts stopping the motor: the motor is switched off by the enable pin, zero
    /// is written to the start velocity and to the maximum velocity, and the
    /// actual position is read. The caller is then asked, with `Action::Scale`,
    /// for the word that is the target of that position, and that word is
    /// written to the target position. The answer is the packet of that last
    /// exchange, and its status byte is kept. The first failure ends the stop;
    /// what has been written stays written.
    pub fn stop(&mut self) -> (action: Action<Reply, E>)
        requires
            old(self).spec_is_idle(),
        ensures
            (*final(self), action) == old(self).spec_begin(Request::Stop),
    {
        self.begin(Request::Stop)
    }

    /// Starts a fresh read of the driver status. The answer tells whether the
    /// standstill flag is clear.
    pub fn is_moving(&mut self) -> (action: Action<Reply, E>)
        requires
            old(self).spec_is_idle(),
        ensures
            (*final(self), action) == old(self).spec_begin(Request::Read(Registers::DRV_STATUS.spec_addr(), Decode::Moving)),
    {
        self.begin(Request::Read(Registers::DRV_STATUS.addr(), Decode::Moving))
    }

    /// Starts a fresh read of the ramp status. The answer is its position-reached
    /// flag.
    pub fn position_is_reached(&mut self) -> (action: Action<Reply, E>)
        requires
            old(self).spec_is_idle(),
        ensures
            (*final(self), action) == old(self).spec_begin(Request::Read(Registers::RAMP_STAT.spec_addr(), Decode::PositionReached)),
    {
        self.begin(Request::Read(Registers::RAMP_STAT.addr(), Decode::PositionReached))
    }

    /// Starts a fresh read of the ramp status. The answer is its velocity-reached
    /// flag.
    pub fn velocity_is_reached(&mut self) -> (action: Action<Reply, E>)
        requires
            old(self).spec_is_idle(),
        ensures
            (*final(self), action) == old(self).spec_begin(Request::Read(Registers::RAMP_STAT.spec_addr(), Decode::VelocityReached)),
    {
        self.begin(Request::Read(Registers::RAMP_STAT.addr(), Decode::VelocityReached))
    }

    /// Starts a fresh read of the ramp status. The answer is the flag of the right
    /// reference switch.
    pub fn is_at_limit_r(&mut self) -> (action: Action<Reply, E>)
        requires
            old(self).spec_is_idle(),
        ensures
            (*final(self), action) == old(self).spec_begin(Request::Read(Registers::RAMP_STAT.spec_addr(), Decode::LimitRight)),
    {
        self.begin(Request::Read(Registers::RAMP_STAT.addr(), Decode::LimitRight))
    }

    /// Starts a fresh read of the ramp status. The answer is the flag of the left
    /// reference switch.
    pub fn is_at_limit_l(&mut self) -> (action: Action<Reply, E>)
        requires
            old(self).spec_is_idle(),
        ensures
            (*final(self), action) == old(self).spec_begin(Request::Read(Registers::RAMP_STAT.spec_addr(), Decode::LimitLeft)),
    {
        self.begin(Request::Read(Registers::RAMP_STAT.addr(), Decode::LimitLeft))
    }

    /// Starts setting the maximum velocity to a speed in full steps per second.
    /// The speed is converted into the chip's unit and written; both the speed
    /// and the word written are remembered as the maximum velocity, and the
    /// status byte of the reply is kept.
    pub fn set_velocity(&mut self, speed_hz: u32) -> (action: Action<Reply, E>)
        requires
            old(self).spec_is_idle(),
        ensures
            (*final(self), action) == (Tmc5160 {
                v_max: speed_hz,
                v_max_raw: old(self).context.speed_to_ticks(speed_hz),
                ..*old(self)
            }).spec_begin(
                Request::WriteLatched(
                    Registers::VMAX.spec_addr(),
                    old(self).context.speed_to_ticks(speed_hz),
                ),
            ),
    {
        self.v_max = speed_hz;
        let ticks = self.context.speed_to_ticks(speed_hz);
        self.v_max_raw = ticks;
        self.begin(Request::WriteLatched(Registers::VMAX.addr(), ticks))
    }

    /// Starts writing the maximum velocity, given in the chip's unit. The word
    /// is remembered as it is, and also converted into full steps per second,
    /// rounded to a whole number and held within the range of a 32-bit number;
    /// the status byte of the reply is kept.
    pub fn set_velocity_raw(&mut self, velocity: u32) -> (action: Action<Reply, E>)
        requires
            old(self).spec_is_idle(),
        ensures
            (*final(self), action) == (Tmc5160 {
                v_max: clamped(
                    old(self).context.ticks_to_speed(velocity as i64) as int,
                    0,
                    u32::MAX as int,
                ) as u32,
                v_max_raw: velocity,
                ..*old(self)
            }).spec_begin(Request::WriteLatched(Registers::VMAX.spec_addr(), velocity)),
    {
        let speed = self.context.ticks_to_speed(velocity as i64);
        self.v_max = if speed < 0 {
            0
        } else if speed > 0xFFFF_FFFF {
            0xFFFF_FFFF
        } else {
            speed as u32
        };
        self.v_max_raw = velocity;
        self.begin(Request::WriteLatched(Registers::VMAX.addr(), velocity))
    }

    /// Starts setting one acceleration, given in full steps per second squared,
    /// for the whole ramp: it is converted into the chip's unit, and that value
    /// is written to the second acceleration, the first deceleration, the first
    /// acceleration and the second deceleration, in that order. The status byte
    /// of the last reply is kept.
    pub fn set_acceleration(&mut self, accel_hz_per_s: u32) -> (action: Action<Reply, E>)
        requires
            old(self).spec_is_idle(),
        ensures
            (*final(self), action) == old(self).spec_begin(
                Request::SetAcceleration(old(self).context.accel_to_ticks(accel_hz_per_s)),
            ),
    {
        let ticks = self.context.accel_to_ticks(accel_hz_per_s);
        self.begin(Request::SetAcceleration(ticks))
    }

    /// Starts setting one acceleration, given in the chip's unit, for the whole
    /// ramp: it is written to the second acceleration, the first deceleration,
    /// the first acceleration and the second deceleration, in that order. The
    /// status byte of the last reply is kept.
    pub fn set_acceleration_raw(&mut self, ticks: u32) -> (action: Action<Reply, E>)
        requires
            old(self).spec_is_idle(),
        ensures
            (*final(self), action) == old(self).spec_begin(Request::SetAcceleration(ticks)),
    {
        self.begin(Request::SetAcceleration(ticks))
    }

    /// Starts a move to a position in full steps: the motor is switched on by
    /// the enable pin, then the position, converted into microsteps, is written
    /// as the target. The status byte of the reply is kept.
    pub fn move_to(&mut self, position: i32) -> (action: Action<Reply, E>)
        requires
            old(self).spec_is_idle(),
        ensures
            (*final(self), action) == old(self).spec_begin(
                Request::MoveTo(
                    unsigned(old(self).context.position_to_steps(position)) as u32,
                ),
            ),
    {
        let steps = self.context.position_to_steps(position);
        self.begin(Request::MoveTo(from_signed(steps)))
    }

    /// Starts a move to a position in microsteps: the motor is switched on by
    /// the enable pin, then the target position is written. The status byte of
    /// the reply is kept.
    pub fn move_to_raw(&mut self, steps: i32) -> (action: Action<Reply, E>)
        requires
            old(self).spec_is_idle(),
        ensures
            (*final(self), action) == old(self).spec_begin(
                Request::MoveTo(unsigned(steps) as u32),
            ),
    {
        self.begin(Request::MoveTo(from_signed(steps)))
    }

    /// Starts writing the actual position, given in full steps and converted
    /// into microsteps.
    pub fn set_position(&mut self, target_signed: i32) -> (action: Action<Reply, E>)
        requires
            old(self).spec_is_idle(),
        ensures
            (*final(self), action) == old(self).spec_begin(
                Request::Write(
                    Registers::XACTUAL.spec_addr(),
                    unsigned(old(self).context.position_to_steps(target_signed)) as u32,
                ),
            ),
    {
        let steps = self.context.position_to_steps(target_signed);
        self.begin(Request::Write(Registers::XACTUAL.addr(), from_signed(steps)))
    }

    /// Starts reading the position latched on the last reference switch event.
    pub fn get_latched_position(&mut self) -> (action: Action<Reply, E>)
        requires
            old(self).spec_is_idle(),
        ensures
            (*final(self), action) == old(self).spec_begin(Request::Read(Registers::XLATCH.spec_addr(), Decode::Position)),
    {
        self.begin(Request::Read(Registers::XLATCH.addr(), Decode::Position))
    }

    /// Starts reading the actual position.
    pub fn get_position(&mut self) -> (action: Action<Reply, E>)
        requires
            old(self).spec_is_idle(),
        ensures
            (*final(self), action) == old(self).spec_begin(Request::Read(Registers::XACTUAL.spec_addr(), Decode::Position)),
    {
        self.begin(Request::Read(Registers::XACTUAL.addr(), Decode::Position))
    }

    /// Starts reading the actual velocity.
    pub fn get_velocity(&mut self) -> (action: Action<Reply, E>)
        requires
            old(self).spec_is_idle(),
        ensures
            (*final(self), action) == old(self).spec_begin(Request::Read(Registers::VACTUAL.spec_addr(), Decode::Velocity)),
    {
        self.begin(Request::Read(Registers::VACTUAL.addr(), Decode::Velocity))
    }

    /// Starts reading the target position.
    pub fn get_target(&mut self) -> (action: Action<Reply, E>)
        requires
            old(self).spec_is_idle(),
        ensures
            (*final(self), action) == old(self).spec_begin(Request::Read(Registers::XTARGET.spec_addr(), Decode::Position)),
    {
        self.begin(Request::Read(Registers::XTARGET.addr(), Decode::Position))
    }
}

} // verus!
