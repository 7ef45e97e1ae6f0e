//! Digital I/O channels.
//!
//! A digital channel is validated locally before the native port initialize
//! call, like every allocation in the registry. The output carries the value
//! last commanded; pushing it to the pin is the native edge.

use vstd::prelude::*;

use crate::error::HalError;
use crate::handle::{DigitalHandle, DigitalPwmHandle};
use crate::registry::check_channel;

verus! {

/// A digital channel opened for reading.
#[derive(Clone, Copy, Debug, PartialEq, Eq, Hash, Structural)]
pub struct DigitalInput {
    channel: i32,
    handle: DigitalHandle,
}

impl DigitalInput {
    /// The channel number of the input.
    pub closed spec fn channel_spec(&self) -> i32 {
        self.channel
    }

    /// The wire value of the owned handle.
    pub closed spec fn handle_value(&self) -> i32 {
        self.handle.0
    }

    /// Claim a digital channel for input: the channel is validated against
    /// the domain's channel count before anything else, and a rejected
    /// channel never reaches the native library. The handle is the one the
    /// native port initialize call returned.
    pub fn new(channel: i32, channel_count: i32, handle: DigitalHandle) -> (r: Result<
        DigitalInput,
        HalError,
    >)
        ensures
            0 <= channel < channel_count ==> (r matches Ok(d) && d.channel_spec() == channel
                && d.handle_value() == handle.0),
            !(0 <= channel < channel_count) ==> r == Err::<DigitalInput, HalError>(
                HalError::InvalidChannel(channel),
            ),
    {
        if let Err(e) = check_channel(channel, channel_count) {
            return Err(e);
        }
        Ok(DigitalInput { channel, handle })
    }

    /// The channel number of the input.
    pub fn channel(&self) -> (r: i32)
        ensures
            r == self.channel_spec(),
    {
        self.channel
    }
}

/// A digital channel opened for writing, carrying the value last commanded.
#[derive(Clone, Copy, Debug, PartialEq, Eq, Hash, Structural)]
pub struct DigitalOutput {
    channel: i32,
    handle: DigitalHandle,
    value: bool,
}

impl DigitalOutput {
    /// The channel number of the output.
    pub closed spec fn channel_spec(&self) -> i32 {
        self.channel
    }

    /// The wire value of the owned handle.
    pub closed spec fn handle_value(&self) -> i32 {
        self.handle.0
    }

    /// The value last commanded.
    pub closed spec fn value_spec(&self) -> bool {
        self.value
    }

    /// Claim a digital channel for output, with the same local validation
    /// as the input side. A fresh output is low.
    pub fn new(channel: i32, channel_count: i32, handle: DigitalHandle) -> (r: Result<
        DigitalOutput,
        HalError,
    >)
        ensures
            0 <= channel < channel_count ==> (r matches Ok(d) && d.channel_spec() == channel
                && d.handle_value() == handle.0 && !d.value_spec()),
            !(0 <= channel < channel_count) ==> r == Err::<DigitalOutput, HalError>(
                HalError::InvalidChannel(channel),
            ),
    {
        if let Err(e) = check_channel(channel, channel_count) {
            return Err(e);
        }
        Ok(DigitalOutput { channel, handle, value: false })
    }

    /// Command the pin high or low.
    pub fn set(&mut self, value: bool)
        ensures
            final(self).value_spec() == value,
            final(self).channel_spec() == old(self).channel_spec(),
            final(self).handle_value() == old(self).handle_value(),
    {
        self.value = value;
    }

    /// The value last commanded.
    pub fn get(&self) -> (r: bool)
        ensures
            r == self.value_spec(),
    {
        self.value
    }

    /// The channel number of the output.
    pub fn channel(&self) -> (r: i32)
        ensures
            r == self.channel_spec(),
    {
        self.channel
    }
}

/// A PWM generator pointed at a digital output, for driving a duty cycle on
/// the pin instead of switching it manually. The duty cycle itself is
/// floating point and lives at the native edge.
#[derive(Clone, Copy, Debug, PartialEq, Eq, Hash, Structural)]
pub struct PwmGenerator {
    pwm_handle: DigitalPwmHandle,
    channel: i32,
}

impl PwmGenerator {
    /// The wire value of the generator's own handle.
    pub closed spec fn handle_value(&self) -> i32 {
        self.pwm_handle.0
    }

    /// The digital channel the generator drives.
    pub closed spec fn channel_spec(&self) -> i32 {
        self.channel
    }

    /// Point a freshly allocated generator handle at a digital output.
    pub fn new(pwm_handle: DigitalPwmHandle, output: &DigitalOutput) -> (r: PwmGenerator)
        ensures
            r.handle_value() == pwm_handle.0,
            r.channel_spec() == output.channel_spec(),
    {
        PwmGenerator { pwm_handle, channel: output.channel() }
    }
}

} // verus!
