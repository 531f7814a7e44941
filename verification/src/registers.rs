//! Fixed facts of the chip: its bus address, its identity, its register map
//! and the settings its configuration registers take.

use vstd::prelude::*;

verus! {

/// The 7-bit bus address the chip answers on.
pub const DEVICE_ADDRESS: u8 = 0x44;

/// The byte an ISL29125 reports in its identity register.
pub const DEVICE_ID: u8 = 0x7D;

/// How many registers the chip has, counted from address zero.
pub const REGISTER_COUNT: u8 = 0x0f;

/// The addresses of the chip's registers.
pub struct RegisterMap;

impl RegisterMap {
    pub const DEVICE_ID: u8 = 0x00;

    pub const RESET: u8 = 0x00;

    pub const CONFIGURATION1: u8 = 0x01;

    pub const CONFIGURATION2: u8 = 0x02;

    pub const CONFIGURATION3: u8 = 0x03;

    pub const LOW_THRESHOLD_LOW_BYTE: u8 = 0x04;

    pub const LOW_THRESHOLD_HIGH_BYTE: u8 = 0x05;

    pub const HIGH_THRESHOLD_LOW_BYTE: u8 = 0x06;

    pub const HIGH_THRESHOLD_HIGH_BYTE: u8 = 0x07;

    pub const STATUS_FLAGS: u8 = 0x08;

    pub const GREEN_DATA_LOW_BYTE: u8 = 0x09;

    pub const GREEN_DATA_HIGH_BYTE: u8 = 0x0a;

    pub const RED_DATA_LOW_BYTE: u8 = 0x0b;

    pub const RED_DATA_HIGH_BYTE: u8 = 0x0c;

    pub const BLUE_DATA_LOW_BYTE: u8 = 0x0d;

    pub const BLUE_DATA_HIGH_BYTE: u8 = 0x0e;
}

/// Which channels the chip samples.
#[allow(non_camel_case_types)]
#[derive(Clone, Copy, Debug, PartialEq, Eq)]
pub enum OperationModes {
    PowerDown,
    GreenOnly,
    RedOnly,
    BlueOnly,
    StandBy,
    Green_Red_Blue,
    Green_Red,
    Green_Blue,
}

impl OperationModes {
    /// The value the first configuration register takes for this mode.
    pub open spec fn code(self) -> u8 {
        match self {
            OperationModes::PowerDown => 0,
            OperationModes::GreenOnly => 1,
            OperationModes::RedOnly => 2,
            OperationModes::BlueOnly => 3,
            OperationModes::StandBy => 4,
            OperationModes::Green_Red_Blue => 5,
            OperationModes::Green_Red => 6,
            OperationModes::Green_Blue => 7,
        }
    }

    /// The command that selects this mode: the address of the first
    /// configuration register, then the mode's value.
    pub open spec fn command(self) -> Seq<u8> {
        seq![RegisterMap::CONFIGURATION1, self.code()]
    }

    /// Computes `code`.
    pub fn bits(&self) -> (b: u8)
        ensures
            b == self.code(),
            b < 8,
    {
        match self {
            OperationModes::PowerDown => 0,
            OperationModes::GreenOnly => 1,
            OperationModes::RedOnly => 2,
            OperationModes::BlueOnly => 3,
            OperationModes::StandBy => 4,
            OperationModes::Green_Red_Blue => 5,
            OperationModes::Green_Red => 6,
            OperationModes::Green_Blue => 7,
        }
    }
}

/// The command of every mode is two bytes, the address of the first
/// configuration register and a value below eight, and no two modes share a
/// command.
pub proof fn lemma_mode_commands(a: OperationModes, b: OperationModes)
    ensures
        a.command().len() == 2,
        a.command()[0] == RegisterMap::CONFIGURATION1,
        a.command()[1] == a.code(),
        a.code() < 8,
        a.command() == b.command() <==> a == b,
{
    if a.command() == b.command() {
        assert(a.command()[1] == b.command()[1]);
    }
}

/// The full-scale range of the converter.
#[allow(non_camel_case_types)]
#[derive(Clone, Copy, Debug, PartialEq, Eq)]
pub enum RgbDataSensingRange {
    _375_Lux,
    _10_000_Lux,
}

/// What starts a conversion.
#[allow(non_camel_case_types)]
#[derive(Clone, Copy, Debug, PartialEq, Eq)]
pub enum RgbStartSyncedAtIntPin {
    ADC_StartAtI2cWrite0x01,
    ADC_StartAtRisingInt,
}

/// The channel whose count is held against the thresholds.
#[derive(Clone, Copy, Debug, PartialEq, Eq)]
pub enum InterruptThresholdAssignment {
    NoInterrupt,
    GreenInterrupt,
    RedInterrupt,
    BlueInterrupt,
}

/// How many samples in a row must cross a threshold before the chip
/// interrupts.
#[derive(Clone, Copy, Debug, PartialEq, Eq)]
pub enum InterruptPersistControl {
    One,
    Two,
    Four,
    Eight,
}

/// Whether the end of a conversion raises the interrupt pin.
#[derive(Clone, Copy, Debug, PartialEq, Eq)]
pub enum RgbConversionDone {
    Disable,
    Enable,
}

/// The width of a count.
#[allow(non_camel_case_types)]
#[derive(Clone, Copy, Debug, PartialEq, Eq)]
pub enum AdcResolution {
    _16bits,
    _12bits,
}

} // verus!
