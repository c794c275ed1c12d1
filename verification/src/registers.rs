//! The chip's register map and the bit-field layout of its registers.
//!
//! A register with named fields is a struct around its 32-bit word. Each field
//! has an accessor that reads its bits and, unless the register is read-only,
//! one that writes them; both are specified by the field's lowest bit and
//! width, over the functions of [`bits`].

pub mod bits;
pub mod chopper;
pub mod general;
pub mod map;
pub mod ramp;
pub mod status;

pub use chopper::{ChopConf, CoolConf, DrvStatus, MsLutSel, PwmConf};
pub use general::{DrvConf, GConf, GStat, IHoldIRun, NodeConf, OtpProg, ShortConf};
pub use map::{Address, RampMode, Registers};
pub use ramp::{EncMode, EncStatus, RampStat, SwMode};
pub use status::SpiStatus;
