//! Verified core of a robot hardware abstraction layer.
//!
//! The vendor's native library reports failure through a trailing
//! out-parameter status code on every call. This crate verifies the
//! cross-cutting infrastructure around that convention: translation of
//! status codes into a typed error taxonomy, typed lifecycle-managed
//! resource handles, a process-wide readiness gate that every hardware
//! call observes, and the state machine of the periodic notifier
//! service. A deterministic in-process stand-in for the native library
//! backs the simulation paths and the tests.

use vstd::prelude::*;

pub mod analog;
pub mod can;
pub mod dio;
pub mod driverstation;
pub mod encoder;
pub mod enums;
pub mod error;
pub mod gate;
pub mod halio;
pub mod handle;
pub mod i2c;
pub mod interrupt;
pub mod joystick;
pub mod mock;
pub mod notifier;
pub mod pdp;
pub mod pid;
pub mod pwm;
pub mod registry;
pub mod relay;
pub mod serial;
pub mod solenoid;
pub mod spi;
pub mod structs;

verus! {

/// Result type used by every fallible operation of this crate.
pub type HalResult<T> = Result<T, crate::error::HalError>;

} // verus!
