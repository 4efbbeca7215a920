//! Command set of the ST7789 display controller.

use vstd::prelude::*;

verus! {

#[derive(Clone, Copy, Debug, PartialEq, Eq, Structural)]
pub enum Command {
    SwReset,
    SleepOut,
    NormalMode,
    DisplayInversionOn,
    Gamma,
    DisplayOn,
    ColumnAddress,
    RowAddress,
    MemoryWrite,
    MemoryDataAccessControl,
    InterfacePixelFormat,
    DisplayBrightness,
    PorchSetting,
    GateControl,
    GateOnTimingAdjustment,
    LcmControl,
    VdvVrhCmdEnable,
    VrhSet,
    VdvSet,
    FrameRateControl2,
    PowerControl1,
    PositiveVoltageGammaControl,
    NegativeVoltageGammaControl,
}

impl Command {
    /// The command byte, as the controller's data sheet numbers it.
    pub open spec fn spec_code(self) -> u8 {
        match self {
            Command::SwReset => 0x01,
            Command::SleepOut => 0x11,
            Command::NormalMode => 0x13,
            Command::DisplayInversionOn => 0x21,
            Command::Gamma => 0x26,
            Command::DisplayOn => 0x29,
            Command::ColumnAddress => 0x2A,
            Command::RowAddress => 0x2B,
            Command::MemoryWrite => 0x2C,
            Command::MemoryDataAccessControl => 0x36,
            Command::InterfacePixelFormat => 0x3A,
            Command::DisplayBrightness => 0x51,
            Command::PorchSetting => 0xB2,
            Command::GateControl => 0xB7,
            Command::GateOnTimingAdjustment => 0xB8,
            Command::LcmControl => 0xC0,
            Command::VdvVrhCmdEnable => 0xC2,
            Command::VrhSet => 0xC3,
            Command::VdvSet => 0xC4,
            Command::FrameRateControl2 => 0xC6,
            Command::PowerControl1 => 0xD0,
            Command::PositiveVoltageGammaControl => 0xE0,
            Command::NegativeVoltageGammaControl => 0xE1,
        }
    }

    #[verifier::when_used_as_spec(spec_code)]
    pub fn code(self) -> (byte: u8)
        ensures
            byte == self.spec_code(),
    {
        match self {
            Command::SwReset => 0x01,
            Command::SleepOut => 0x11,
            Command::NormalMode => 0x13,
            Command::DisplayInversionOn => 0x21,
            Command::Gamma => 0x26,
            Command::DisplayOn => 0x29,
            Command::ColumnAddress => 0x2A,
            Command::RowAddress => 0x2B,
            Command::MemoryWrite => 0x2C,
            Command::MemoryDataAccessControl => 0x36,
            Command::InterfacePixelFormat => 0x3A,
            Command::DisplayBrightness => 0x51,
            Command::PorchSetting => 0xB2,
            Command::GateControl => 0xB7,
            Command::GateOnTimingAdjustment => 0xB8,
            Command::LcmControl => 0xC0,
            Command::VdvVrhCmdEnable => 0xC2,
            Command::VrhSet => 0xC3,
            Command::VdvSet => 0xC4,
            Command::FrameRateControl2 => 0xC6,
            Command::PowerControl1 => 0xD0,
            Command::PositiveVoltageGammaControl => 0xE0,
            Command::NegativeVoltageGammaControl => 0xE1,
        }
    }
}

} // verus!
