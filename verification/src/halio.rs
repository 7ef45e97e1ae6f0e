//! One address space over the controller's byte-oriented buses.
//!
//! A `RobotIoPort` names a serial port, an SPI chip select, or an I2C port
//! and device address, so that code moving bytes can be written once over
//! whichever bus a device sits on. The accessors recover the concrete bus
//! and fail when the port is of another kind.

use vstd::prelude::*;

use crate::error::HalError;
use crate::serial::Port;
use crate::spi::SpiPort;

verus! {

/// A byte-oriented I/O port of the controller.
#[derive(Clone, Copy, Debug, PartialEq, Eq, Hash, Structural)]
pub enum RobotIoPort {
    Serial(Port),
    Spi(SpiPort),
    /// An I2C port and the device address on it.
    I2c(i32, i32),
}

impl RobotIoPort {
    /// The serial port behind this address, if it is one.
    pub fn as_serial(&self) -> (r: Result<Port, HalError>)
        ensures
            *self matches RobotIoPort::Serial(p) ==> r == Ok::<Port, HalError>(p),
            !(*self is Serial) ==> r == Err::<Port, HalError>(HalError::Other),
    {
        if let RobotIoPort::Serial(port) = *self {
            Ok(port)
        } else {
            Err(HalError::Other)
        }
    }

    /// The SPI chip select behind this address, if it is one.
    pub fn as_spi(&self) -> (r: Result<SpiPort, HalError>)
        ensures
            *self matches RobotIoPort::Spi(p) ==> r == Ok::<SpiPort, HalError>(p),
            !(*self is Spi) ==> r == Err::<SpiPort, HalError>(HalError::Other),
    {
        if let RobotIoPort::Spi(port) = *self {
            Ok(port)
        } else {
            Err(HalError::Other)
        }
    }

    /// The I2C port and device address behind this address, if it is one.
    pub fn as_i2c(&self) -> (r: Result<(i32, i32), HalError>)
        ensures
            *self matches RobotIoPort::I2c(p, a) ==> r == Ok::<(i32, i32), HalError>((p, a)),
            !(*self is I2c) ==> r == Err::<(i32, i32), HalError>(HalError::Other),
    {
        if let RobotIoPort::I2c(port, addr) = *self {
            Ok((port, addr))
        } else {
            Err(HalError::Other)
        }
    }
}

} // verus!
