//! Analog input and output resources: the worked example of the handle
//! registry lifecycle.
//!
//! Allocation validates the channel locally, observes the readiness gate,
//! and only then lets the native initialize call run; a failure on any of
//! those steps leaves no handle behind. A live resource owns its handle
//! alone and releases it exactly once; the native free entry points of this
//! domain report no status, so release cannot fail.

use vstd::prelude::*;

use crate::error::{translate_status, HalError};
use crate::gate::{begin_call, finish_call_value, ReadinessGate};
use crate::handle::{AnalogInputHandle, AnalogOutputHandle};
use crate::mock::MockHal;
use crate::registry::check_channel;

verus! {

/// An owned analog input channel.
pub struct AnalogInput {
    channel: i32,
    port: AnalogInputHandle,
    live: bool,
}

impl AnalogInput {
    /// The channel number the resource was allocated for.
    pub closed spec fn channel_spec(&self) -> i32 {
        self.channel
    }

    /// The wire value of the owned handle.
    pub closed spec fn handle_value(&self) -> i32 {
        self.port.0
    }

    /// Whether the handle is still owned, not yet released.
    pub closed spec fn is_live(&self) -> bool {
        self.live
    }

    /// Allocate an analog input against the simulated native library:
    /// validate the channel against the domain's channel count, observe the
    /// readiness flag, and only then let the native initialize call run. A
    /// rejected channel, like a runtime that is not ready, performs no
    /// native call, and a native failure leaves no handle behind.
    pub fn open_sim(
        channel: i32,
        channel_count: i32,
        gate: &ReadinessGate,
        native: &mut MockHal,
    ) -> (r: Result<AnalogInput, HalError>)
        requires
            old(native).wf(),
            old(native).calls() < u64::MAX,
            old(native).next() < i32::MAX,
        ensures
            final(native).wf(),
            !(0 <= channel < channel_count) ==> r == Err::<AnalogInput, HalError>(
                HalError::InvalidChannel(channel),
            ) && *final(native) == *old(native),
            0 <= channel < channel_count && !gate.is_set() ==> r == Err::<AnalogInput, HalError>(
                HalError::NotInitialized,
            ) && *final(native) == *old(native),
            0 <= channel < channel_count && gate.is_set() ==> {
                &&& final(native).calls() == old(native).calls() + 1
                &&& final(native).freed() == old(native).freed()
                &&& final(native).faulted() == old(native).faulted()
                &&& final(native).scripted() == old(native).scripted()
                &&& final(native).time() == old(native).time()
                &&& old(native).scripted() == 0 ==> {
                    &&& r matches Ok(input)
                    &&& input.channel_spec() == channel
                    &&& input.is_live()
                    &&& input.handle_value() == old(native).next()
                    &&& final(native).live() == old(native).live().push(input.handle_value())
                    &&& final(native).live().contains(input.handle_value())
                    &&& final(native).next() == old(native).next() + 1
                    &&& !old(native).live().contains(input.handle_value())
                    &&& !old(native).freed().contains(input.handle_value())
                }
                &&& old(native).scripted() != 0 ==> {
                    &&& r == Err::<AnalogInput, HalError>(
                        HalError::Hal(translate_status(old(native).scripted())),
                    )
                    &&& final(native).live() == old(native).live()
                    &&& final(native).next() == old(native).next()
                }
            },
    {
        if let Err(e) = check_channel(channel, channel_count) {
            return Err(e);
        }
        let mut cell = match begin_call(gate) {
            Ok(c) => c,
            Err(e) => {
                return Err(e);
            },
        };
        let raw = native.allocate(&mut cell);
        match finish_call_value(cell, raw) {
            Ok(raw) => {
                proof {
                    assert(native.live()[old(native).live().len() as int] == raw);
                }
                Ok(AnalogInput { channel, port: AnalogInputHandle(raw), live: true })
            },
            Err(e) => Err(e),
        }
    }

    /// Release the owned handle back to the simulated native library. The
    /// native free entry point of this domain reports no status, so release
    /// cannot fail; the resource is no longer live afterward, so a second
    /// release of the same handle is ruled out.
    pub fn release_sim(&mut self, native: &mut MockHal)
        requires
            old(self).is_live(),
            old(native).wf(),
            old(native).calls() < u64::MAX,
            old(native).live().contains(old(self).handle_value()),
        ensures
            final(native).wf(),
            !final(self).is_live(),
            final(self).handle_value() == old(self).handle_value(),
            final(self).channel_spec() == old(self).channel_spec(),
            final(native).calls() == old(native).calls() + 1,
            final(native).freed() == old(native).freed().push(old(self).handle_value()),
            !final(native).live().contains(old(self).handle_value()),
            final(native).faulted() == old(native).faulted(),
            final(native).scripted() == old(native).scripted(),
            final(native).time() == old(native).time(),
            final(native).next() == old(native).next(),
    {
        native.release(self.port.0);
        self.live = false;
    }

    /// The channel number the resource was allocated for.
    pub fn channel(&self) -> (r: i32)
        ensures
            r == self.channel_spec(),
    {
        self.channel
    }

    /// The typed handle of the resource.
    pub fn port(&self) -> (r: AnalogInputHandle)
        ensures
            r.0 == self.handle_value(),
    {
        self.port
    }

    /// Whether the handle is still owned.
    pub fn active(&self) -> (r: bool)
        ensures
            r == self.is_live(),
    {
        self.live
    }
}

/// An owned analog output channel, with the same lifecycle as the input.
pub struct AnalogOutput {
    channel: i32,
    port: AnalogOutputHandle,
    live: bool,
}

impl AnalogOutput {
    /// The channel number the resource was allocated for.
    pub closed spec fn channel_spec(&self) -> i32 {
        self.channel
    }

    /// The wire value of the owned handle.
    pub closed spec fn handle_value(&self) -> i32 {
        self.port.0
    }

    /// Whether the handle is still owned, not yet released.
    pub closed spec fn is_live(&self) -> bool {
        self.live
    }

    /// Allocate an analog output: local channel validation, then the
    /// readiness check, then the native initialize call, exactly as for
    /// the input domain.
    pub fn open_sim(
        channel: i32,
        channel_count: i32,
        gate: &ReadinessGate,
        native: &mut MockHal,
    ) -> (r: Result<AnalogOutput, HalError>)
        requires
            old(native).wf(),
            old(native).calls() < u64::MAX,
            old(native).next() < i32::MAX,
        ensures
            final(native).wf(),
            !(0 <= channel < channel_count) ==> r == Err::<AnalogOutput, HalError>(
                HalError::InvalidChannel(channel),
            ) && *final(native) == *old(native),
            0 <= channel < channel_count && !gate.is_set() ==> r == Err::<AnalogOutput, HalError>(
                HalError::NotInitialized,
            ) && *final(native) == *old(native),
            0 <= channel < channel_count && gate.is_set() ==> {
                &&& final(native).calls() == old(native).calls() + 1
                &&& final(native).freed() == old(native).freed()
                &&& final(native).faulted() == old(native).faulted()
                &&& final(native).scripted() == old(native).scripted()
                &&& final(native).time() == old(native).time()
                &&& old(native).scripted() == 0 ==> {
                    &&& r matches Ok(output)
                    &&& output.channel_spec() == channel
                    &&& output.is_live()
                    &&& output.handle_value() == old(native).next()
                    &&& final(native).live() == old(native).live().push(output.handle_value())
                    &&& final(native).live().contains(output.handle_value())
                    &&& final(native).next() == old(native).next() + 1
                }
                &&& old(native).scripted() != 0 ==> {
                    &&& r == Err::<AnalogOutput, HalError>(
                        HalError::Hal(translate_status(old(native).scripted())),
                    )
                    &&& final(native).live() == old(native).live()
                    &&& final(native).next() == old(native).next()
                }
            },
    {
        if let Err(e) = check_channel(channel, channel_count) {
            return Err(e);
        }
        let mut cell = match begin_call(gate) {
            Ok(c) => c,
            Err(e) => {
                return Err(e);
            },
        };
        let raw = native.allocate(&mut cell);
        match finish_call_value(cell, raw) {
            Ok(raw) => {
                proof {
                    assert(native.live()[old(native).live().len() as int] == raw);
                }
                Ok(AnalogOutput { channel, port: AnalogOutputHandle(raw), live: true })
            },
            Err(e) => Err(e),
        }
    }

    /// Release the owned handle; like the input domain's free, the native
    /// entry point reports no status.
    pub fn release_sim(&mut self, native: &mut MockHal)
        requires
            old(self).is_live(),
            old(native).wf(),
            old(native).calls() < u64::MAX,
            old(native).live().contains(old(self).handle_value()),
        ensures
            final(native).wf(),
            !final(self).is_live(),
            final(self).handle_value() == old(self).handle_value(),
            final(self).channel_spec() == old(self).channel_spec(),
            final(native).calls() == old(native).calls() + 1,
            final(native).freed() == old(native).freed().push(old(self).handle_value()),
            !final(native).live().contains(old(self).handle_value()),
            final(native).faulted() == old(native).faulted(),
            final(native).scripted() == old(native).scripted(),
            final(native).time() == old(native).time(),
            final(native).next() == old(native).next(),
    {
        native.release(self.port.0);
        self.live = false;
    }

    /// The channel number the resource was allocated for.
    pub fn channel(&self) -> (r: i32)
        ensures
            r == self.channel_spec(),
    {
        self.channel
    }

    /// Whether the handle is still owned.
    pub fn active(&self) -> (r: bool)
        ensures
            r == self.is_live(),
    {
        self.live
    }
}

/// One sample of an analog accumulator: the running sum and how many
/// samples it holds.
#[derive(Clone, Copy, Debug, PartialEq, Eq, Hash, Default, Structural)]
pub struct AccumulatorOutput {
    pub value: i64,
    pub count: i64,
}

/// An accumulator view over an analog input: a running sum in hardware,
/// offset by a constant on the reading side. Only some analog channels
/// carry accumulator hardware, and the native library is the authority on
/// which.
#[derive(Clone, Copy, Debug, PartialEq, Eq, Hash, Structural)]
pub struct AnalogAccumulator {
    channel: i32,
    offset: i64,
}

impl AnalogAccumulator {
    /// The analog channel the accumulator sits on.
    pub closed spec fn channel_spec(&self) -> i32 {
        self.channel
    }

    /// The constant added to every accumulated reading.
    pub closed spec fn offset_spec(&self) -> i64 {
        self.offset
    }

    /// Attach to the accumulator of an analog input, given the native
    /// library's answer to whether the channel carries one. A channel
    /// without accumulator hardware is rejected as an invalid channel
    /// before anything else happens to it.
    pub fn new(input: &AnalogInput, is_accumulator_channel: bool, offset: i64) -> (r: Result<
        AnalogAccumulator,
        HalError,
    >)
        ensures
            is_accumulator_channel ==> (r matches Ok(a) && a.channel_spec()
                == input.channel_spec() && a.offset_spec() == offset),
            !is_accumulator_channel ==> r == Err::<AnalogAccumulator, HalError>(
                HalError::InvalidChannel(input.channel_spec()),
            ),
    {
        if !is_accumulator_channel {
            return Err(HalError::InvalidChannel(input.channel()));
        }
        Ok(AnalogAccumulator { channel: input.channel(), offset })
    }

    /// Apply the accumulator's offset to a raw accumulated value the native
    /// library reported.
    pub fn adjusted_value(&self, raw: i64) -> (r: i64)
        requires
            i64::MIN <= raw + self.offset_spec() <= i64::MAX,
        ensures
            r == raw + self.offset_spec(),
    {
        raw + self.offset
    }
}

} // verus!
