//! Solenoid channels on the pneumatics control module.
//!
//! Channel and module numbers are validated locally, channel first, before
//! the native port initialize call. A shorted solenoid lands on the module's
//! blacklist, which the native library reports as a bitmask.

use vstd::prelude::*;

use crate::error::HalError;
use crate::handle::SolenoidHandle;
use crate::registry::{check_channel, check_module};

verus! {

/// One solenoid channel, carrying the value last commanded.
#[derive(Clone, Copy, Debug, PartialEq, Eq, Hash, Structural)]
pub struct Solenoid {
    channel: i32,
    handle: SolenoidHandle,
    on: bool,
}

impl Solenoid {
    /// The channel number of the solenoid.
    pub closed spec fn channel_spec(&self) -> i32 {
        self.channel
    }

    /// The wire value of the owned handle.
    pub closed spec fn handle_value(&self) -> i32 {
        self.handle.0
    }

    /// The value last commanded.
    pub closed spec fn is_on(&self) -> bool {
        self.on
    }

    /// Claim a solenoid channel on a module: the channel is validated
    /// first, then the module, both locally; a rejected number never
    /// reaches the native library. The handle is the one the native port
    /// initialize call returned. A fresh solenoid is off.
    pub fn with_module(
        module: i32,
        channel: i32,
        channel_count: i32,
        module_count: i32,
        handle: SolenoidHandle,
    ) -> (r: Result<Solenoid, HalError>)
        ensures
            !(0 <= channel < channel_count) ==> r == Err::<Solenoid, HalError>(
                HalError::InvalidChannel(channel),
            ),
            0 <= channel < channel_count && !(0 <= module < module_count) ==> r == Err::<
                Solenoid,
                HalError,
            >(HalError::InvalidModule(module)),
            0 <= channel < channel_count && 0 <= module < module_count ==> (r matches Ok(s)
                && s.channel_spec() == channel && s.handle_value() == handle.0 && !s.is_on()),
    {
        if let Err(e) = check_channel(channel, channel_count) {
            return Err(e);
        }
        if let Err(e) = check_module(module, module_count) {
            return Err(e);
        }
        Ok(Solenoid { channel, handle, on: false })
    }

    /// Claim a solenoid channel on the default module.
    pub fn new(channel: i32, channel_count: i32, module_count: i32, handle: SolenoidHandle) -> (r:
        Result<Solenoid, HalError>)
        requires
            module_count >= 1,
        ensures
            !(0 <= channel < channel_count) ==> r == Err::<Solenoid, HalError>(
                HalError::InvalidChannel(channel),
            ),
            0 <= channel < channel_count ==> (r matches Ok(s) && s.channel_spec() == channel
                && s.handle_value() == handle.0 && !s.is_on()),
    {
        Solenoid::with_module(0, channel, channel_count, module_count, handle)
    }

    /// Command the solenoid on or off.
    pub fn set(&mut self, on: bool)
        ensures
            final(self).is_on() == on,
            final(self).channel_spec() == old(self).channel_spec(),
            final(self).handle_value() == old(self).handle_value(),
    {
        self.on = on;
    }

    /// The value last commanded.
    pub fn get(&self) -> (r: bool)
        ensures
            r == self.is_on(),
    {
        self.on
    }

    /// Whether this solenoid stands on the module's blacklist, given the
    /// blacklist bitmask the native library reported: bit `channel`, with
    /// the least significant bit as channel 0.
    pub fn is_blacklisted(&self, blacklist_bits: u32) -> (r: bool)
        requires
            0 <= self.channel_spec() < 32,
        ensures
            r == ((blacklist_bits >> (self.channel_spec() as u32)) & 1 == 1),
    {
        (blacklist_bits >> (self.channel as u32)) & 1 == 1
    }
}

} // verus!
