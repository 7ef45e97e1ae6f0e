//! Typed wrappers around the native library's opaque integer handles.
//!
//! At the native boundary every resource handle is a plain 32-bit integer
//! with no tagging. Each hardware domain gets its own wrapper type here, so
//! that a handle of one domain can never stand where another domain's handle
//! is expected; only the domain's own allocation path produces the wrapper.

use vstd::prelude::*;

verus! {

/// Common face of the typed resource handles: a domain-tagged wrapper
/// around the wire value a native initialize call returned.
pub trait Handle: Sized {
    /// The wire value of the handle.
    spec fn spec_handle(&self) -> i32;

    /// Wrap a wire value returned by the domain's native initialize call.
    fn new(port: i32) -> (r: Self)
        ensures
            r.spec_handle() == port,
    ;

    /// The wire value to hand to a native call.
    fn get_handle(&self) -> (r: i32)
        ensures
            r == self.spec_handle(),
    ;
}

/// Reinterpret a handle's wire value in another domain. This deliberately
/// bypasses the domain tagging and is only for native entry points that take
/// a generic handle.
pub fn transmute_handle<A: Handle, H: Handle>(from: &A) -> (r: Box<H>)
    ensures
        r.spec_handle() == from.spec_handle(),
{
    Box::new(H::new(from.get_handle()))
}

#[derive(Clone, Copy, Debug, PartialEq, Eq, Hash, Structural)]
pub struct AnalogInputHandle(pub i32);

impl Handle for AnalogInputHandle {
    open spec fn spec_handle(&self) -> i32 {
        self.0
    }

    fn new(port: i32) -> (r: AnalogInputHandle) {
        AnalogInputHandle(port)
    }

    fn get_handle(&self) -> (r: i32) {
        self.0
    }
}

#[derive(Clone, Copy, Debug, PartialEq, Eq, Hash, Structural)]
pub struct GyroHandle(pub i32);

impl Handle for GyroHandle {
    open spec fn spec_handle(&self) -> i32 {
        self.0
    }

    fn new(port: i32) -> (r: GyroHandle) {
        GyroHandle(port)
    }

    fn get_handle(&self) -> (r: i32) {
        self.0
    }
}

#[derive(Clone, Copy, Debug, PartialEq, Eq, Hash, Structural)]
pub struct PortHandle(pub i32);

impl Handle for PortHandle {
    open spec fn spec_handle(&self) -> i32 {
        self.0
    }

    fn new(port: i32) -> (r: PortHandle) {
        PortHandle(port)
    }

    fn get_handle(&self) -> (r: i32) {
        self.0
    }
}

#[derive(Clone, Copy, Debug, PartialEq, Eq, Hash, Structural)]
pub struct AnalogOutputHandle(pub i32);

impl Handle for AnalogOutputHandle {
    open spec fn spec_handle(&self) -> i32 {
        self.0
    }

    fn new(port: i32) -> (r: AnalogOutputHandle) {
        AnalogOutputHandle(port)
    }

    fn get_handle(&self) -> (r: i32) {
        self.0
    }
}

#[derive(Clone, Copy, Debug, PartialEq, Eq, Hash, Structural)]
pub struct AnalogTriggerHandle(pub i32);

impl Handle for AnalogTriggerHandle {
    open spec fn spec_handle(&self) -> i32 {
        self.0
    }

    fn new(port: i32) -> (r: AnalogTriggerHandle) {
        AnalogTriggerHandle(port)
    }

    fn get_handle(&self) -> (r: i32) {
        self.0
    }
}

#[derive(Clone, Copy, Debug, PartialEq, Eq, Hash, Structural)]
pub struct CompressorHandle(pub i32);

impl Handle for CompressorHandle {
    open spec fn spec_handle(&self) -> i32 {
        self.0
    }

    fn new(port: i32) -> (r: CompressorHandle) {
        CompressorHandle(port)
    }

    fn get_handle(&self) -> (r: i32) {
        self.0
    }
}

#[derive(Clone, Copy, Debug, PartialEq, Eq, Hash, Structural)]
pub struct CounterHandle(pub i32);

impl Handle for CounterHandle {
    open spec fn spec_handle(&self) -> i32 {
        self.0
    }

    fn new(port: i32) -> (r: CounterHandle) {
        CounterHandle(port)
    }

    fn get_handle(&self) -> (r: i32) {
        self.0
    }
}

#[derive(Clone, Copy, Debug, PartialEq, Eq, Hash, Structural)]
pub struct DigitalHandle(pub i32);

impl Handle for DigitalHandle {
    open spec fn spec_handle(&self) -> i32 {
        self.0
    }

    fn new(port: i32) -> (r: DigitalHandle) {
        DigitalHandle(port)
    }

    fn get_handle(&self) -> (r: i32) {
        self.0
    }
}

#[derive(Clone, Copy, Debug, PartialEq, Eq, Hash, Structural)]
pub struct DigitalPwmHandle(pub i32);

impl Handle for DigitalPwmHandle {
    open spec fn spec_handle(&self) -> i32 {
        self.0
    }

    fn new(port: i32) -> (r: DigitalPwmHandle) {
        DigitalPwmHandle(port)
    }

    fn get_handle(&self) -> (r: i32) {
        self.0
    }
}

#[derive(Clone, Copy, Debug, PartialEq, Eq, Hash, Structural)]
pub struct RelayHandle(pub i32);

impl Handle for RelayHandle {
    open spec fn spec_handle(&self) -> i32 {
        self.0
    }

    fn new(port: i32) -> (r: RelayHandle) {
        RelayHandle(port)
    }

    fn get_handle(&self) -> (r: i32) {
        self.0
    }
}

#[derive(Clone, Copy, Debug, PartialEq, Eq, Hash, Structural)]
pub struct SolenoidHandle(pub i32);

impl Handle for SolenoidHandle {
    open spec fn spec_handle(&self) -> i32 {
        self.0
    }

    fn new(port: i32) -> (r: SolenoidHandle) {
        SolenoidHandle(port)
    }

    fn get_handle(&self) -> (r: i32) {
        self.0
    }
}

#[derive(Clone, Copy, Debug, PartialEq, Eq, Hash, Structural)]
pub struct InterruptHandle(pub i32);

impl Handle for InterruptHandle {
    open spec fn spec_handle(&self) -> i32 {
        self.0
    }

    fn new(port: i32) -> (r: InterruptHandle) {
        InterruptHandle(port)
    }

    fn get_handle(&self) -> (r: i32) {
        self.0
    }
}

#[derive(Clone, Copy, Debug, PartialEq, Eq, Hash, Structural)]
pub struct NotifierHandle(pub i32);

impl Handle for NotifierHandle {
    open spec fn spec_handle(&self) -> i32 {
        self.0
    }

    fn new(port: i32) -> (r: NotifierHandle) {
        NotifierHandle(port)
    }

    fn get_handle(&self) -> (r: i32) {
        self.0
    }
}

#[derive(Clone, Copy, Debug, PartialEq, Eq, Hash, Structural)]
pub struct SpiHandle(pub i32);

impl Handle for SpiHandle {
    open spec fn spec_handle(&self) -> i32 {
        self.0
    }

    fn new(port: i32) -> (r: SpiHandle) {
        SpiHandle(port)
    }

    fn get_handle(&self) -> (r: i32) {
        self.0
    }
}

#[derive(Clone, Copy, Debug, PartialEq, Eq, Hash, Structural)]
pub struct EncoderHandle(pub i32);

impl Handle for EncoderHandle {
    open spec fn spec_handle(&self) -> i32 {
        self.0
    }

    fn new(port: i32) -> (r: EncoderHandle) {
        EncoderHandle(port)
    }

    fn get_handle(&self) -> (r: i32) {
        self.0
    }
}

} // verus!
