//! SPI bus configuration.
//!
//! The struct mirrors the three option flags the native library keeps per
//! bus — bit direction, sample edge and clock polarity — exactly as the
//! native option-setting entry point packs them. Data transfers move raw
//! bytes through the native library and are the unverified edge.

use vstd::prelude::*;

verus! {

/// The SPI chip selects of the controller.
#[derive(Clone, Copy, Debug, PartialEq, Eq, Hash, Structural)]
pub enum SpiPort {
    CS0,
    CS1,
    CS2,
    CS3,
    MXP,
}

impl SpiPort {
    /// The wire value of the port.
    pub fn as_i32(&self) -> (r: i32)
        ensures
            *self is CS0 ==> r == 0,
            *self is CS1 ==> r == 1,
            *self is CS2 ==> r == 2,
            *self is CS3 ==> r == 3,
            *self is MXP ==> r == 4,
    {
        match *self {
            SpiPort::CS0 => 0,
            SpiPort::CS1 => 1,
            SpiPort::CS2 => 2,
            SpiPort::CS3 => 3,
            SpiPort::MXP => 4,
        }
    }
}

/// On which clock edge the data signal is sampled.
#[derive(Clone, Copy, Debug, PartialEq, Eq, Hash, Structural)]
pub enum SampleEdge {
    RisingEdge,
    FallingEdge,
}

/// Whether a high signal means active or idle.
#[derive(Clone, Copy, Debug, PartialEq, Eq, Hash, Structural)]
pub enum Polarity {
    ActiveHigh,
    ActiveLow,
}

/// Which end of a word goes onto the wire first.
#[derive(Clone, Copy, Debug, PartialEq, Eq, Hash, Structural)]
pub enum BitDirection {
    MsbFirst,
    LsbFirst,
}

/// The maximum SPI clock rate the hardware accepts, in hertz.
pub const MAX_SPI_SPEED_HZ: i32 = 4000000;

/// An SPI bus and the option flags last commanded for it, in the packing
/// the native option-setting entry point takes.
#[derive(Clone, Copy, Debug, PartialEq, Eq, Structural)]
pub struct Spi {
    port: SpiPort,
    msb_first: bool,
    sample_on_trailing: bool,
    clock_idle_high: bool,
    speed: Option<i32>,
}

impl Spi {
    /// The port of the bus.
    pub closed spec fn port_spec(&self) -> SpiPort {
        self.port
    }

    /// Whether words go out most significant bit first.
    pub closed spec fn msb_first_spec(&self) -> bool {
        self.msb_first
    }

    /// Whether data is sampled on the trailing clock edge.
    pub closed spec fn sample_on_trailing_spec(&self) -> bool {
        self.sample_on_trailing
    }

    /// Whether a high clock signal means idle.
    pub closed spec fn clock_idle_high_spec(&self) -> bool {
        self.clock_idle_high
    }

    /// The clock rate last commanded, in hertz.
    pub closed spec fn speed_spec(&self) -> Option<i32> {
        self.speed
    }

    /// Open a bus; all options start cleared, as the native library leaves
    /// them on initialize.
    pub fn initialize(port: SpiPort) -> (r: Spi)
        ensures
            r.port_spec() == port,
            !r.msb_first_spec(),
            !r.sample_on_trailing_spec(),
            !r.clock_idle_high_spec(),
            r.speed_spec() is None,
    {
        Spi { port, msb_first: false, sample_on_trailing: false, clock_idle_high: false, speed: None }
    }

    /// Configure the bus to send either the most or least significant bit
    /// first.
    pub fn set_msb_first(&mut self, direction: BitDirection)
        ensures
            final(self).msb_first_spec() == (direction is MsbFirst),
            final(self).sample_on_trailing_spec() == old(self).sample_on_trailing_spec(),
            final(self).clock_idle_high_spec() == old(self).clock_idle_high_spec(),
            final(self).port_spec() == old(self).port_spec(),
            final(self).speed_spec() == old(self).speed_spec(),
    {
        self.msb_first = match direction {
            BitDirection::MsbFirst => true,
            BitDirection::LsbFirst => false,
        };
    }

    /// Configure on which edge of the clock signal data is sampled.
    pub fn set_sample_edge(&mut self, edge: SampleEdge)
        ensures
            final(self).sample_on_trailing_spec() == (edge is FallingEdge),
            final(self).msb_first_spec() == old(self).msb_first_spec(),
            final(self).clock_idle_high_spec() == old(self).clock_idle_high_spec(),
            final(self).port_spec() == old(self).port_spec(),
            final(self).speed_spec() == old(self).speed_spec(),
    {
        self.sample_on_trailing = match edge {
            SampleEdge::FallingEdge => true,
            SampleEdge::RisingEdge => false,
        };
    }

    /// Configure whether a high clock signal means idle or active.
    pub fn set_clock_polarity(&mut self, polarity: Polarity)
        ensures
            final(self).clock_idle_high_spec() == (polarity is ActiveLow),
            final(self).msb_first_spec() == old(self).msb_first_spec(),
            final(self).sample_on_trailing_spec() == old(self).sample_on_trailing_spec(),
            final(self).port_spec() == old(self).port_spec(),
            final(self).speed_spec() == old(self).speed_spec(),
    {
        self.clock_idle_high = match polarity {
            Polarity::ActiveHigh => false,
            Polarity::ActiveLow => true,
        };
    }

    /// Command the clock rate in hertz. The hardware accepts rates up to
    /// `MAX_SPI_SPEED_HZ` only.
    pub fn set_speed(&mut self, speed: i32)
        requires
            0 <= speed <= MAX_SPI_SPEED_HZ,
        ensures
            final(self).speed_spec() == Some(speed),
            final(self).msb_first_spec() == old(self).msb_first_spec(),
            final(self).sample_on_trailing_spec() == old(self).sample_on_trailing_spec(),
            final(self).clock_idle_high_spec() == old(self).clock_idle_high_spec(),
            final(self).port_spec() == old(self).port_spec(),
    {
        self.speed = Some(speed);
    }

    /// The three option flags in the order the native option-setting entry
    /// point takes them: bit direction, sample edge, clock polarity.
    pub fn options(&self) -> (r: (bool, bool, bool))
        ensures
            r == (self.msb_first_spec(), self.sample_on_trailing_spec(), self.clock_idle_high_spec()),
    {
        (self.msb_first, self.sample_on_trailing, self.clock_idle_high)
    }
}

/// Interpret what a native byte transfer returned: a negative count means
/// the transfer failed, any other count is how many bytes moved.
pub fn transfer_outcome(count: i32) -> (r: Result<usize, crate::error::HalError>)
    ensures
        count >= 0 ==> r == Ok::<usize, crate::error::HalError>(count as usize),
        count < 0 ==> r == Err::<usize, crate::error::HalError>(crate::error::HalError::Other),
{
    if count >= 0 {
        Ok(count as usize)
    } else {
        Err(crate::error::HalError::Other)
    }
}

} // verus!
