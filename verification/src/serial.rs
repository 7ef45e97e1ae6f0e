//! Serial port configuration.
//!
//! The struct mirrors the configuration last commanded for the port; the
//! native calls that push each setting are the unverified edge. The wire
//! values of the enumerations are the ones the native library expects.

use vstd::prelude::*;

verus! {

/// The serial ports of the controller.
#[derive(Clone, Copy, Debug, PartialEq, Eq, Hash, Structural)]
pub enum Port {
    Onboard,
    MXP,
    USB1,
    USB2,
}

impl Port {
    /// The wire value of the port.
    pub fn as_i32(&self) -> (r: i32)
        ensures
            *self is Onboard ==> r == 0,
            *self is MXP ==> r == 1,
            *self is USB1 ==> r == 2,
            *self is USB2 ==> r == 3,
    {
        match *self {
            Port::Onboard => 0,
            Port::MXP => 1,
            Port::USB1 => 2,
            Port::USB2 => 3,
        }
    }
}

/// Parity of a serial transfer.
#[derive(Clone, Copy, Debug, PartialEq, Eq, Hash, Structural)]
pub enum Parity {
    Disabled,
    Odd,
    Even,
    Mark,
    Space,
}

impl Parity {
    /// The wire value of the parity mode.
    pub fn as_i32(&self) -> (r: i32)
        ensures
            *self is Disabled ==> r == 0,
            *self is Odd ==> r == 1,
            *self is Even ==> r == 2,
            *self is Mark ==> r == 3,
            *self is Space ==> r == 4,
    {
        match *self {
            Parity::Disabled => 0,
            Parity::Odd => 1,
            Parity::Even => 2,
            Parity::Mark => 3,
            Parity::Space => 4,
        }
    }
}

/// Stop bits of a serial transfer. The wire values encode tenths of a bit.
#[derive(Clone, Copy, Debug, PartialEq, Eq, Hash, Structural)]
pub enum StopBits {
    One,
    OnePointFive,
    Two,
}

impl StopBits {
    /// The wire value of the stop-bit setting: ten times the bit count.
    pub fn as_i32(&self) -> (r: i32)
        ensures
            *self is One ==> r == 10,
            *self is OnePointFive ==> r == 15,
            *self is Two ==> r == 20,
    {
        match *self {
            StopBits::One => 10,
            StopBits::OnePointFive => 15,
            StopBits::Two => 20,
        }
    }
}

/// Flow control of a serial transfer.
#[derive(Clone, Copy, Debug, PartialEq, Eq, Hash, Structural)]
pub enum FlowControl {
    Disabled,
    XonXoff,
    RtsCts,
    DtsDsr,
}

impl FlowControl {
    /// The wire value of the flow-control mode.
    pub fn as_i32(&self) -> (r: i32)
        ensures
            *self is Disabled ==> r == 0,
            *self is XonXoff ==> r == 1,
            *self is RtsCts ==> r == 2,
            *self is DtsDsr ==> r == 4,
    {
        match *self {
            FlowControl::Disabled => 0,
            FlowControl::XonXoff => 1,
            FlowControl::RtsCts => 2,
            FlowControl::DtsDsr => 4,
        }
    }
}

/// When buffered writes are pushed to the wire.
#[derive(Clone, Copy, Debug, PartialEq, Eq, Hash, Structural)]
pub enum WriteMode {
    FlushOnAccess,
    FlushWhenFull,
}

impl WriteMode {
    /// The wire value of the write mode.
    pub fn as_i32(&self) -> (r: i32)
        ensures
            *self is FlushOnAccess ==> r == 1,
            *self is FlushWhenFull ==> r == 2,
    {
        match *self {
            WriteMode::FlushOnAccess => 1,
            WriteMode::FlushWhenFull => 2,
        }
    }
}

/// A serial port and the configuration last commanded for it; a setting is
/// `None` until it has been commanded once.
#[derive(Clone, Copy, Debug, PartialEq, Eq, Hash, Structural)]
pub struct Serial {
    pub port: Port,
    pub baud_rate: Option<i32>,
    pub data_bits: Option<i32>,
    pub parity: Option<Parity>,
    pub stop_bits: Option<StopBits>,
    pub write_mode: Option<WriteMode>,
    pub flow_control: Option<FlowControl>,
    pub termination: Option<u8>,
}

impl Serial {
    /// Open a port; nothing has been configured yet.
    pub fn initialize(port: Port) -> (r: Serial)
        ensures
            r == (Serial {
                port,
                baud_rate: None,
                data_bits: None,
                parity: None,
                stop_bits: None,
                write_mode: None,
                flow_control: None,
                termination: None,
            }),
    {
        Serial {
            port,
            baud_rate: None,
            data_bits: None,
            parity: None,
            stop_bits: None,
            write_mode: None,
            flow_control: None,
            termination: None,
        }
    }

    /// Command the baud rate.
    pub fn set_baud_rate(&mut self, rate: i32)
        ensures
            *final(self) == (Serial { baud_rate: Some(rate), ..*old(self) }),
    {
        self.baud_rate = Some(rate);
    }

    /// Command the data bits per transfer. Only 5 through 8 are accepted by
    /// the hardware.
    pub fn set_data_bits(&mut self, bits: i32)
        requires
            5 <= bits <= 8,
        ensures
            *final(self) == (Serial { data_bits: Some(bits), ..*old(self) }),
    {
        self.data_bits = Some(bits);
    }

    /// Command the parity mode.
    pub fn set_parity(&mut self, parity: Parity)
        ensures
            *final(self) == (Serial { parity: Some(parity), ..*old(self) }),
    {
        self.parity = Some(parity);
    }

    /// Command the stop bits.
    pub fn set_stop_bits(&mut self, bits: StopBits)
        ensures
            *final(self) == (Serial { stop_bits: Some(bits), ..*old(self) }),
    {
        self.stop_bits = Some(bits);
    }

    /// Command the write mode.
    pub fn set_write_mode(&mut self, mode: WriteMode)
        ensures
            *final(self) == (Serial { write_mode: Some(mode), ..*old(self) }),
    {
        self.write_mode = Some(mode);
    }

    /// Command the flow control mode.
    pub fn set_flow_control(&mut self, flow: FlowControl)
        ensures
            *final(self) == (Serial { flow_control: Some(flow), ..*old(self) }),
    {
        self.flow_control = Some(flow);
    }

    /// Enable read termination on one terminator byte.
    pub fn enable_termination(&mut self, terminator: u8)
        ensures
            *final(self) == (Serial { termination: Some(terminator), ..*old(self) }),
    {
        self.termination = Some(terminator);
    }

    /// Disable read termination.
    pub fn disable_termination(&mut self)
        ensures
            *final(self) == (Serial { termination: None, ..*old(self) }),
    {
        self.termination = None;
    }
}

} // verus!
