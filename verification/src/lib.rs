//! Register-level driver for the ISL29125 red/green/blue ambient-light sensor.
//!
//! The driver talks to the chip through a [`Transport`], an addressed
//! two-wire bus, and keeps the counts of the last successful sample. Every
//! operation is one transaction on the bus; its contract says what was
//! handed to the bus and how the result follows from what the bus gave back.
//!
//! - `registers`: the chip's address, identity, register map and settings
//! - `counts`: the three channel counts and their decoding
//! - `transport`: the bus the driver is written against
//! - `driver`: the driver itself
//! - `scripted`: a bus that plays back a script, for trying the driver
//!   without a chip

pub mod counts;
pub mod driver;
pub mod error;
pub mod registers;
pub mod scripted;
pub mod transport;

pub use counts::LedCounter;
pub use driver::{judge_identity, Isl29125};
pub use error::Error;
pub use registers::{
    AdcResolution, InterruptPersistControl, InterruptThresholdAssignment, OperationModes,
    RegisterMap, RgbConversionDone, RgbDataSensingRange, RgbStartSyncedAtIntPin, DEVICE_ADDRESS,
    DEVICE_ID, REGISTER_COUNT,
};
pub use scripted::{BusFault, Recorded, ScriptedBus};
pub use transport::{Exchange, Transport};
