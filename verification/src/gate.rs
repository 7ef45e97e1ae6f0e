//! The readiness gate and the calling protocol shared by every native call.
//!
//! A native hardware call follows one protocol: consult the readiness flag
//! and fail with `NotInitialized` before anything else happens while it is
//! unset; otherwise hand the native function a zero-initialized status
//! cell; finally read the cell back and translate a nonzero code. The
//! protocol is split into `begin_call` and `finish_call` so that the native
//! invocation itself stands between the two, outside this library: a caller
//! that is refused by `begin_call` never obtains the status cell a native
//! call needs, which is what makes "no call happens before readiness"
//! structural rather than a convention.

use vstd::prelude::*;

use crate::error::{translate_status, HalError};

verus! {

/// Process-wide record of whether the native runtime has finished booting.
/// Every hardware call observes it through `begin_call` before dispatch.
pub struct ReadinessGate {
    ready: bool,
}

impl ReadinessGate {
    /// Whether the native boot sequence has completed.
    pub closed spec fn is_set(&self) -> bool {
        self.ready
    }

    /// A fresh gate: the native runtime has not booted yet.
    pub fn new() -> (r: ReadinessGate)
        ensures
            !r.is_set(),
    {
        ReadinessGate { ready: false }
    }

    /// Record the outcome of the native boot sequence: readiness is reached
    /// exactly when booting succeeded, and is never lost by booting again.
    pub fn complete_boot(&mut self, boot_ok: bool)
        ensures
            final(self).is_set() == (old(self).is_set() || boot_ok),
    {
        if boot_ok {
            self.ready = true;
        }
    }

    /// Cheap read of the readiness flag.
    pub fn is_ready(&self) -> (r: bool)
        ensures
            r == self.is_set(),
    {
        self.ready
    }
}

/// The out-parameter cell a native call writes its status code into. A cell
/// can only be obtained from `begin_call`, zeroed, once readiness is there.
pub struct StatusCell {
    status: i32,
}

impl StatusCell {
    /// The status code the cell holds.
    pub closed spec fn val(&self) -> i32 {
        self.status
    }

    /// Read the code a native call wrote.
    pub fn read(&self) -> (r: i32)
        ensures
            r == self.val(),
    {
        self.status
    }

    /// Write a status code, as the native side of a call does.
    pub fn write(&mut self, code: i32)
        ensures
            final(self).val() == code,
    {
        self.status = code;
    }
}

/// First half of the protocol: check readiness. Before readiness the call
/// fails with `NotInitialized` and yields no cell, so no native call can
/// follow; afterward the zero-initialized status cell comes back.
pub fn begin_call(gate: &ReadinessGate) -> (r: Result<StatusCell, HalError>)
    ensures
        r is Ok <==> gate.is_set(),
        r matches Ok(cell) ==> cell.val() == 0,
        !gate.is_set() ==> r == Err::<StatusCell, HalError>(HalError::NotInitialized),
{
    if gate.is_ready() {
        Ok(StatusCell { status: 0 })
    } else {
        Err(HalError::NotInitialized)
    }
}

/// Second half of the protocol: consume the cell the native call wrote.
/// Zero means success; any other code is translated, and translation never
/// fails.
pub fn finish_call(cell: StatusCell) -> (r: Result<(), HalError>)
    ensures
        r is Ok <==> cell.val() == 0,
        cell.val() != 0 ==> r == Err::<(), HalError>(HalError::Hal(translate_status(cell.val()))),
{
    let code = cell.read();
    if code == 0 {
        Ok(())
    } else {
        Err(HalError::from(code))
    }
}

/// `finish_call` for a native call that also returns a value: the value is
/// only meaningful when the status reads zero.
pub fn finish_call_value<T>(cell: StatusCell, value: T) -> (r: Result<T, HalError>)
    ensures
        cell.val() == 0 ==> (r matches Ok(v) && v == value),
        cell.val() != 0 ==> r == Err::<T, HalError>(HalError::Hal(translate_status(cell.val()))),
{
    let code = cell.read();
    if code == 0 {
        Ok(value)
    } else {
        Err(HalError::from(code))
    }
}

} // verus!
