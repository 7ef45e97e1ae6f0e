//! Relay channels and the dual-direction relay logic.
//!
//! A raw relay drives one direction of a relay channel. The dual relay pairs
//! a forward and a reverse half, and `AnyRelay` gives the combined get/set
//! behavior over whichever halves are present. The structs carry the state
//! last commanded; pushing it to the hardware register is the native edge.

use vstd::prelude::*;

use crate::handle::RelayHandle;

verus! {

/// A raw relay: one direction of a relay channel.
#[derive(Debug, PartialEq, Eq, Hash, Structural)]
pub struct Relay {
    handle: RelayHandle,
    active: bool,
}

impl Relay {
    /// The wire value of the relay port handle.
    pub closed spec fn handle_value(&self) -> i32 {
        self.handle.0
    }

    /// The state last commanded.
    pub closed spec fn is_active(&self) -> bool {
        self.active
    }

    /// Wrap the handle a native relay-port initialize call returned. A
    /// fresh relay is off.
    pub fn from_handle(handle: RelayHandle) -> (r: Relay)
        ensures
            r.handle_value() == handle.0,
            !r.is_active(),
    {
        Relay { handle, active: false }
    }

    /// Command the relay on or off.
    pub fn set(&mut self, active: bool)
        ensures
            final(self).is_active() == active,
            final(self).handle_value() == old(self).handle_value(),
    {
        self.active = active;
    }

    /// The state last commanded.
    pub fn get(&self) -> (r: bool)
        ensures
            r == self.is_active(),
    {
        self.active
    }
}

/// The four states a dual-direction relay can be commanded to.
#[derive(Clone, Copy, Debug, PartialEq, Eq, Hash, Structural)]
pub enum DualValue {
    On,
    Off,
    Forward,
    Reverse,
}

/// A relay with both a forward and a reverse half.
#[derive(Debug, PartialEq, Eq, Hash, Structural)]
pub struct DoubleRelay {
    forward: Relay,
    reverse: Relay,
}

impl DoubleRelay {
    /// The forward half's commanded state.
    pub closed spec fn forward_active(&self) -> bool {
        self.forward.is_active()
    }

    /// The reverse half's commanded state.
    pub closed spec fn reverse_active(&self) -> bool {
        self.reverse.is_active()
    }

    /// Pair two relays into a dual relay. Does not validate that `forward`
    /// and `reverse` drive the directions their names claim.
    pub fn from_relays(forward: Relay, reverse: Relay) -> (r: DoubleRelay)
        ensures
            r.forward_active() == forward.is_active(),
            r.reverse_active() == reverse.is_active(),
    {
        DoubleRelay { forward, reverse }
    }

    /// Command the two halves separately.
    pub fn set_active(&mut self, fwd: bool, rev: bool)
        ensures
            final(self).forward_active() == fwd,
            final(self).reverse_active() == rev,
    {
        self.forward.set(fwd);
        self.reverse.set(rev);
    }

    /// Command a combined state: `On` drives both halves, `Off` neither,
    /// `Forward` and `Reverse` exactly their own half.
    pub fn set(&mut self, value: DualValue)
        ensures
            final(self).forward_active() == (value is On || value is Forward),
            final(self).reverse_active() == (value is On || value is Reverse),
    {
        match value {
            DualValue::On => self.set_active(true, true),
            DualValue::Forward => self.set_active(true, false),
            DualValue::Reverse => self.set_active(false, true),
            DualValue::Off => self.set_active(false, false),
        }
    }

    /// The combined state of the two halves.
    pub fn get(&self) -> (r: DualValue)
        ensures
            r is On <==> self.forward_active() && self.reverse_active(),
            r is Forward <==> self.forward_active() && !self.reverse_active(),
            r is Reverse <==> !self.forward_active() && self.reverse_active(),
            r is Off <==> !self.forward_active() && !self.reverse_active(),
    {
        match (self.forward.get(), self.reverse.get()) {
            (true, true) => DualValue::On,
            (true, false) => DualValue::Forward,
            (false, true) => DualValue::Reverse,
            (false, false) => DualValue::Off,
        }
    }
}

/// Any relay: forward-only, reverse-only, or dual, with one get/set surface.
#[derive(Debug, PartialEq, Eq, Hash, Structural)]
pub enum AnyRelay {
    Forward(Relay),
    Backward(Relay),
    Both(DoubleRelay),
}

impl AnyRelay {
    /// The states this relay can be commanded to: `On` and `Off` always
    /// work; `Forward` needs a forward or dual relay, `Reverse` a reverse
    /// or dual one.
    pub open spec fn accepts(&self, value: DualValue) -> bool {
        match *self {
            AnyRelay::Both(_) => true,
            AnyRelay::Forward(_) => value is On || value is Forward || value is Off,
            AnyRelay::Backward(_) => value is On || value is Reverse || value is Off,
        }
    }

    /// Whether the single half of a one-direction relay is commanded on; of
    /// a dual relay, whether the forward half is.
    pub closed spec fn primary_active(&self) -> bool {
        match *self {
            AnyRelay::Forward(r) => r.is_active(),
            AnyRelay::Backward(r) => r.is_active(),
            AnyRelay::Both(d) => d.forward_active(),
        }
    }

    /// Set the state of this relay. Directions the relay does not have are
    /// ruled out by `accepts`: the hardware cannot express them.
    pub fn set(&mut self, value: DualValue)
        requires
            old(self).accepts(value),
        ensures
            *final(self) matches AnyRelay::Forward(r) ==> (*old(self) matches AnyRelay::Forward(p)
                && r.handle_value() == p.handle_value() && r.is_active() == (value is On
                || value is Forward)),
            *final(self) matches AnyRelay::Backward(r) ==> (*old(self) matches AnyRelay::Backward(p)
                && r.handle_value() == p.handle_value() && r.is_active() == (value is On
                || value is Reverse)),
            *final(self) matches AnyRelay::Both(d) ==> (*old(self) is Both && d.forward_active() == (
            value is On || value is Forward) && d.reverse_active() == (value is On
                || value is Reverse)),
            *final(self) is Forward == *old(self) is Forward,
            *final(self) is Backward == *old(self) is Backward,
            *final(self) is Both == *old(self) is Both,
    {
        match self {
            AnyRelay::Both(double) => double.set(value),
            AnyRelay::Forward(relay) => relay.set(
                match value {
                    DualValue::On | DualValue::Forward => true,
                    _ => false,
                },
            ),
            AnyRelay::Backward(relay) => relay.set(
                match value {
                    DualValue::On | DualValue::Reverse => true,
                    _ => false,
                },
            ),
        }
    }

    /// The combined state of this relay. A one-direction relay reports only
    /// `On` or `Off`.
    pub fn get(&self) -> (r: DualValue)
        ensures
            self matches AnyRelay::Forward(h) ==> r == (if h.is_active() {
                DualValue::On
            } else {
                DualValue::Off
            }),
            self matches AnyRelay::Backward(h) ==> r == (if h.is_active() {
                DualValue::On
            } else {
                DualValue::Off
            }),
            self matches AnyRelay::Both(d) ==> {
                &&& r is On <==> d.forward_active() && d.reverse_active()
                &&& r is Forward <==> d.forward_active() && !d.reverse_active()
                &&& r is Reverse <==> !d.forward_active() && d.reverse_active()
                &&& r is Off <==> !d.forward_active() && !d.reverse_active()
            },
    {
        match self {
            AnyRelay::Both(double) => double.get(),
            AnyRelay::Forward(relay) | AnyRelay::Backward(relay) => {
                if relay.get() {
                    DualValue::On
                } else {
                    DualValue::Off
                }
            },
        }
    }
}

} // verus!
