//! Hardware interrupt handlers.
//!
//! An interrupt handler owns one interrupt handle and the edge configuration
//! last commanded for it. Attaching a callback crosses the native boundary
//! through an untyped pointer and a C trampoline, so that part lives at the
//! unverified edge; what stands here is the handler's state.

use vstd::prelude::*;

use crate::handle::InterruptHandle;

verus! {

/// One hardware interrupt, with its enablement and edge configuration.
#[derive(Clone, Copy, Debug, PartialEq, Eq, Hash, Structural)]
pub struct InterruptHandler {
    handle: InterruptHandle,
    enabled: bool,
    rising_edge: bool,
    falling_edge: bool,
}

impl InterruptHandler {
    /// The wire value of the owned handle.
    pub closed spec fn handle_value(&self) -> i32 {
        self.handle.0
    }

    /// Whether the interrupt is enabled.
    pub closed spec fn is_enabled(&self) -> bool {
        self.enabled
    }

    /// Whether the rising edge fires the interrupt.
    pub closed spec fn rising_spec(&self) -> bool {
        self.rising_edge
    }

    /// Whether the falling edge fires the interrupt.
    pub closed spec fn falling_spec(&self) -> bool {
        self.falling_edge
    }

    /// Wrap the handle a native interrupt initialize call returned. A fresh
    /// interrupt is disabled and fires on the rising edge, as the native
    /// library configures it.
    pub fn new(handle: InterruptHandle) -> (r: InterruptHandler)
        ensures
            r.handle_value() == handle.0,
            !r.is_enabled(),
            r.rising_spec(),
            !r.falling_spec(),
    {
        InterruptHandler { handle, enabled: false, rising_edge: true, falling_edge: false }
    }

    /// Enable the interrupt.
    pub fn enable(&mut self)
        ensures
            final(self).is_enabled(),
            final(self).handle_value() == old(self).handle_value(),
            final(self).rising_spec() == old(self).rising_spec(),
            final(self).falling_spec() == old(self).falling_spec(),
    {
        self.enabled = true;
    }

    /// Disable the interrupt.
    pub fn disable(&mut self)
        ensures
            !final(self).is_enabled(),
            final(self).handle_value() == old(self).handle_value(),
            final(self).rising_spec() == old(self).rising_spec(),
            final(self).falling_spec() == old(self).falling_spec(),
    {
        self.enabled = false;
    }

    /// Configure which edges of the source fire the interrupt.
    pub fn set_up_source_edge(&mut self, rising: bool, falling: bool)
        ensures
            final(self).rising_spec() == rising,
            final(self).falling_spec() == falling,
            final(self).handle_value() == old(self).handle_value(),
            final(self).is_enabled() == old(self).is_enabled(),
    {
        self.rising_edge = rising;
        self.falling_edge = falling;
    }
}

} // verus!
