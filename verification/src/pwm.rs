//! PWM output ports.
//!
//! The pulse-width bounds of a port live in one configuration record; the
//! analog pulse timing itself is the native edge.

use vstd::prelude::*;

use crate::handle::DigitalHandle;

verus! {

/// The raw pulse-width configuration of a PWM port, in native ticks. A
/// meaningful configuration is ordered from `min_pwm` up to `max_pwm` with
/// the deadband around the center.
#[derive(Clone, Copy, Debug, PartialEq, Eq, Hash, Structural)]
pub struct PwmConfig {
    pub max_pwm: i32,
    pub deadband_max_pwm: i32,
    pub center_pwm: i32,
    pub deadband_min_pwm: i32,
    pub min_pwm: i32,
}

impl PwmConfig {
    /// Whether the bounds are ordered.
    pub open spec fn ordered(&self) -> bool {
        self.min_pwm <= self.deadband_min_pwm <= self.center_pwm <= self.deadband_max_pwm
            <= self.max_pwm
    }
}

/// One PWM output port.
#[derive(Clone, Copy, Debug, PartialEq, Eq, Hash, Structural)]
pub struct Pwm {
    handle: DigitalHandle,
    config: Option<PwmConfig>,
}

impl Pwm {
    /// The wire value of the owned handle.
    pub closed spec fn handle_value(&self) -> i32 {
        self.handle.0
    }

    /// The raw configuration last commanded, if any.
    pub closed spec fn config_spec(&self) -> Option<PwmConfig> {
        self.config
    }

    /// Wrap the handle a native PWM port initialize call returned; nothing
    /// is configured yet.
    pub fn initialize(handle: DigitalHandle) -> (r: Pwm)
        ensures
            r.handle_value() == handle.0,
            r.config_spec() is None,
    {
        Pwm { handle, config: None }
    }

    /// Command the raw pulse-width bounds. Only an ordered configuration is
    /// meaningful to the hardware.
    pub fn set_config_raw(&mut self, config: PwmConfig)
        requires
            config.ordered(),
        ensures
            final(self).config_spec() == Some(config),
            final(self).handle_value() == old(self).handle_value(),
    {
        self.config = Some(config);
    }

    /// The raw configuration last commanded, if any.
    pub fn get_config_raw(&self) -> (r: Option<PwmConfig>)
        ensures
            r == self.config_spec(),
    {
        self.config
    }
}

} // verus!
