//! The addresses of the chip's registers.

use vstd::prelude::*;

verus! {

/// Something that names a register of the chip.
pub trait Address: Sized {
    /// The register's address, a number from 0 to 0x7F.
    spec fn spec_addr(self) -> u8;

    /// The register's address, a number from 0 to 0x7F.
    fn addr(self) -> (address: u8)
        ensures
            address == self.spec_addr(),
            address <= 0x7F,
    ;
}

/// The registers of the chip.
#[allow(non_camel_case_types)]
#[derive(Clone, Copy, Debug, PartialEq, Eq, Structural)]
pub enum Registers {
    /// Global configuration flags.
    GCONF,
    /// Global status flags.
    GSTAT,
    /// Counter of datagrams received on the single-wire interface.
    IFCNT,
    /// Address and reply delay on the single-wire interface.
    NODECONF,
    /// State of the input pins and the chip version.
    IOIN,
    /// Position at which the compare output pulses.
    X_COMPARE,
    /// Programming command for the one-time programmable memory.
    OTP_PROG,
    /// Content of the one-time programmable memory.
    OTP_READ,
    /// Clock frequency trim.
    FACTORY_CONF,
    /// Short-circuit detector thresholds.
    SHORT_CONF,
    /// Power-stage timing and strength.
    DRV_CONF,
    /// Global scaling of the motor current.
    GLOBALSCALER,
    /// Result of the phase offset calibration.
    OFFSET_READ,
    /// Motor current while standing and while running.
    IHOLD_IRUN,
    /// Delay between standstill and the reduction of the motor current.
    TPOWERDOWN,
    /// Measured time between two microsteps.
    TSTEP,
    /// Upper velocity limit of the silent chopper.
    TPWMTHRS,
    /// Lower velocity limit of load-adaptive current control and stall detection.
    TCOOLTHRS,
    /// Velocity above which the driver switches to the high-velocity mode.
    THIGH,
    /// Ramp mode.
    RAMPMODE,
    /// Actual position.
    XACTUAL,
    /// Actual velocity.
    VACTUAL,
    /// Start velocity.
    VSTART,
    /// Acceleration between the start velocity and V1.
    A1,
    /// Velocity at which the ramp changes between its two acceleration phases.
    V1,
    /// Acceleration between V1 and the maximum velocity.
    AMAX,
    /// Maximum velocity.
    VMAX,
    /// Deceleration between the maximum velocity and V1.
    DMAX,
    /// Deceleration between V1 and the stop velocity.
    D1,
    /// Stop velocity.
    VSTOP,
    /// Waiting time at zero velocity before a change of direction.
    TZEROWAIT,
    /// Target position.
    XTARGET,
    /// Velocity below which the chopper runs in the automatic commutation mode.
    VDCMIN,
    /// Reference switch and stall-stop configuration.
    SW_MODE,
    /// Ramp generator and reference switch status.
    RAMP_STAT,
    /// Position latched on a reference switch event.
    XLATCH,
    /// Encoder input configuration.
    ENCMODE,
    /// Encoder position.
    X_ENC,
    /// Encoder steps per microstep.
    ENC_CONST,
    /// Encoder status flags.
    ENC_STATUS,
    /// Encoder position latched on an index event.
    ENC_LATCH,
    /// Largest tolerated difference between encoder and ramp position.
    ENC_DEVIATION,
    /// First word of the microstep wave table.
    MSLUT0,
    /// Second word of the microstep wave table.
    MSLUT1,
    /// Third word of the microstep wave table.
    MSLUT2,
    /// Fourth word of the microstep wave table.
    MSLUT3,
    /// Fifth word of the microstep wave table.
    MSLUT4,
    /// Sixth word of the microstep wave table.
    MSLUT5,
    /// Seventh word of the microstep wave table.
    MSLUT6,
    /// Eighth word of the microstep wave table.
    MSLUT7,
    /// Segmentation of the microstep wave table.
    MSLUTSEL,
    /// Start values of the microstep wave table.
    MSLUTSTART,
    /// Position within the microstep wave table.
    MSCNT,
    /// Coil currents read from the microstep wave table.
    MSCURACT,
    /// Chopper configuration and microstep resolution.
    CHOPCONF,
    /// Load-adaptive current control and stall detection.
    COOLCONF,
    /// Automatic commutation configuration.
    DCCTRL,
    /// Driver status and load measurement.
    DRV_STATUS,
    /// Voltage-PWM chopper configuration.
    PWMCONF,
    /// Amplitude results of the voltage-PWM regulation.
    PWM_SCALE,
    /// Automatically determined voltage-PWM offset and gradient.
    PWM_AUTO,
    /// Number of steps lost in the automatic commutation mode.
    LOST_STEPS,
}

impl Address for Registers {
    open spec fn spec_addr(self) -> u8 {
        match self {
            Registers::GCONF => 0x00,
            Registers::GSTAT => 0x01,
            Registers::IFCNT => 0x02,
            Registers::NODECONF => 0x03,
            Registers::IOIN => 0x04,
            Registers::X_COMPARE => 0x05,
            Registers::OTP_PROG => 0x06,
            Registers::OTP_READ => 0x07,
            Registers::FACTORY_CONF => 0x08,
            Registers::SHORT_CONF => 0x09,
            Registers::DRV_CONF => 0x0A,
            Registers::GLOBALSCALER => 0x0B,
            Registers::OFFSET_READ => 0x0C,
            Registers::IHOLD_IRUN => 0x10,
            Registers::TPOWERDOWN => 0x11,
            Registers::TSTEP => 0x12,
            Registers::TPWMTHRS => 0x13,
            Registers::TCOOLTHRS => 0x14,
            Registers::THIGH => 0x15,
            Registers::RAMPMODE => 0x20,
            Registers::XACTUAL => 0x21,
            Registers::VACTUAL => 0x22,
            Registers::VSTART => 0x23,
            Registers::A1 => 0x24,
            Registers::V1 => 0x25,
            Registers::AMAX => 0x26,
            Registers::VMAX => 0x27,
            Registers::DMAX => 0x28,
            Registers::D1 => 0x2A,
            Registers::VSTOP => 0x2B,
            Registers::TZEROWAIT => 0x2C,
            Registers::XTARGET => 0x2D,
            Registers::VDCMIN => 0x33,
            Registers::SW_MODE => 0x34,
            Registers::RAMP_STAT => 0x35,
            Registers::XLATCH => 0x36,
            Registers::ENCMODE => 0x38,
            Registers::X_ENC => 0x39,
            Registers::ENC_CONST => 0x3A,
            Registers::ENC_STATUS => 0x3B,
            Registers::ENC_LATCH => 0x3C,
            Registers::ENC_DEVIATION => 0x3D,
            Registers::MSLUT0 => 0x60,
            Registers::MSLUT1 => 0x61,
            Registers::MSLUT2 => 0x62,
            Registers::MSLUT3 => 0x63,
            Registers::MSLUT4 => 0x64,
            Registers::MSLUT5 => 0x65,
            Registers::MSLUT6 => 0x66,
            Registers::MSLUT7 => 0x67,
            Registers::MSLUTSEL => 0x68,
            Registers::MSLUTSTART => 0x69,
            Registers::MSCNT => 0x6A,
            Registers::MSCURACT => 0x6B,
            Registers::CHOPCONF => 0x6C,
            Registers::COOLCONF => 0x6D,
            Registers::DCCTRL => 0x6E,
            Registers::DRV_STATUS => 0x6F,
            Registers::PWMCONF => 0x70,
            Registers::PWM_SCALE => 0x71,
            Registers::PWM_AUTO => 0x72,
            Registers::LOST_STEPS => 0x73,
        }
    }

    fn addr(self) -> (address: u8) {
        match self {
            Registers::GCONF => 0x00,
            Registers::GSTAT => 0x01,
            Registers::IFCNT => 0x02,
            Registers::NODECONF => 0x03,
            Registers::IOIN => 0x04,
            Registers::X_COMPARE => 0x05,
            Registers::OTP_PROG => 0x06,
            Registers::OTP_READ => 0x07,
            Registers::FACTORY_CONF => 0x08,
            Registers::SHORT_CONF => 0x09,
            Registers::DRV_CONF => 0x0A,
            Registers::GLOBALSCALER => 0x0B,
            Registers::OFFSET_READ => 0x0C,
            Registers::IHOLD_IRUN => 0x10,
            Registers::TPOWERDOWN => 0x11,
            Registers::TSTEP => 0x12,
            Registers::TPWMTHRS => 0x13,
            Registers::TCOOLTHRS => 0x14,
            Registers::THIGH => 0x15,
            Registers::RAMPMODE => 0x20,
            Registers::XACTUAL => 0x21,
            Registers::VACTUAL => 0x22,
            Registers::VSTART => 0x23,
            Registers::A1 => 0x24,
            Registers::V1 => 0x25,
            Registers::AMAX => 0x26,
            Registers::VMAX => 0x27,
            Registers::DMAX => 0x28,
            Registers::D1 => 0x2A,
            Registers::VSTOP => 0x2B,
            Registers::TZEROWAIT => 0x2C,
            Registers::XTARGET => 0x2D,
            Registers::VDCMIN => 0x33,
            Registers::SW_MODE => 0x34,
            Registers::RAMP_STAT => 0x35,
            Registers::XLATCH => 0x36,
            Registers::ENCMODE => 0x38,
            Registers::X_ENC => 0x39,
            Registers::ENC_CONST => 0x3A,
            Registers::ENC_STATUS => 0x3B,
            Registers::ENC_LATCH => 0x3C,
            Registers::ENC_DEVIATION => 0x3D,
            Registers::MSLUT0 => 0x60,
            Registers::MSLUT1 => 0x61,
            Registers::MSLUT2 => 0x62,
            Registers::MSLUT3 => 0x63,
            Registers::MSLUT4 => 0x64,
            Registers::MSLUT5 => 0x65,
            Registers::MSLUT6 => 0x66,
            Registers::MSLUT7 => 0x67,
            Registers::MSLUTSEL => 0x68,
            Registers::MSLUTSTART => 0x69,
            Registers::MSCNT => 0x6A,
            Registers::MSCURACT => 0x6B,
            Registers::CHOPCONF => 0x6C,
            Registers::COOLCONF => 0x6D,
            Registers::DCCTRL => 0x6E,
            Registers::DRV_STATUS => 0x6F,
            Registers::PWMCONF => 0x70,
            Registers::PWM_SCALE => 0x71,
            Registers::PWM_AUTO => 0x72,
            Registers::LOST_STEPS => 0x73,
        }
    }
}

/// How the ramp generator moves the motor.
#[derive(Clone, Copy, Debug, PartialEq, Eq, Structural)]
pub enum RampMode {
    /// Move to the target position along the configured ramp.
    PositioningMode,
    /// Accelerate to the maximum velocity in the positive direction.
    VelocityPositive,
    /// Accelerate to the maximum velocity in the negative direction.
    VelocityNegative,
    /// Hold the present velocity.
    HoldMode,
}

impl RampMode {
    /// The number that selects the mode in the ramp mode register.
    pub open spec fn spec_code(self) -> u32 {
        match self {
            RampMode::PositioningMode => 0,
            RampMode::VelocityPositive => 1,
            RampMode::VelocityNegative => 2,
            RampMode::HoldMode => 3,
        }
    }

    /// The number that selects the mode in the ramp mode register.
    #[verifier::when_used_as_spec(spec_code)]
    pub fn code(self) -> (code: u32)
        ensures
            code == self.spec_code(),
    {
        match self {
            RampMode::PositioningMode => 0,
            RampMode::VelocityPositive => 1,
            RampMode::VelocityNegative => 2,
            RampMode::HoldMode => 3,
        }
    }
}

} // verus!
