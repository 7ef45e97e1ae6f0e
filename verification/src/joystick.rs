//! Joystick values as the native library reports them.
//!
//! These are the raw records a driver station poll fills in. The axes record
//! is left to the unverified edge: its fields are floating point.

use vstd::prelude::*;

verus! {

/// The most axes a controller can report.
pub const MAX_JOYSTICK_AXES: usize = 12;

/// The most point-of-view hats a controller can report.
pub const MAX_JOYSTICK_POVS: usize = 12;

/// The hat switches of a joystick; each entry is the hat's angle in
/// degrees.
#[derive(Clone, Copy, Debug, PartialEq, Eq, Hash)]
pub struct Povs {
    pub count: i16,
    pub povs: [i16; 12],
}

/// The buttons of a joystick, packed one per bit.
#[derive(Clone, Copy, Debug, PartialEq, Eq, Hash, Default, Structural)]
pub struct Buttons {
    pub buttons: u32,
    pub count: u8,
}

/// The joystick type code as the native library reports it; no code has a
/// published meaning.
#[derive(Clone, Copy, Debug, PartialEq, Eq, Hash, Structural)]
pub enum JoystickType {
    Unknown(i32),
}

impl From<i32> for JoystickType {
    /// Every reported code is an unknown type.
    fn from(code: i32) -> (r: JoystickType) {
        JoystickType::Unknown(code)
    }
}

impl vstd::std_specs::convert::FromSpecImpl<i32> for JoystickType {
    open spec fn obeys_from_spec() -> bool {
        true
    }

    open spec fn from_spec(code: i32) -> JoystickType {
        JoystickType::Unknown(code)
    }
}

/// A joystick's description record, with the native fixed character buffer
/// modeled as an owned string.
#[derive(Clone, Debug, PartialEq, Eq)]
pub struct Descriptor {
    pub is_xbox: u8,
    pub stick_type: u8,
    pub name: String,
    pub axis_count: u8,
    pub axis_types: [u8; 12],
    pub pov_count: u8,
    pub button_count: u8,
}

impl Descriptor {
    /// The human-readable name of the joystick.
    pub fn name(&self) -> (r: String)
        ensures
            r@ == self.name@,
    {
        self.name.clone()
    }

    /// Whether the joystick reports itself as an Xbox-style controller.
    pub fn is_xbox(&self) -> (r: bool)
        ensures
            r == (self.is_xbox != 0),
    {
        self.is_xbox != 0
    }

    /// The type code of the joystick, whatever the vendor means by it.
    pub fn get_type(&self) -> (r: u8)
        ensures
            r == self.stick_type,
    {
        self.stick_type
    }
}

/// One joystick port on the driver station.
#[derive(Clone, Copy, Debug, PartialEq, Eq, Hash, Structural)]
pub struct Joystick {
    pub number: i32,
}

impl Joystick {
    /// The joystick on one driver station port.
    pub fn new(number: i32) -> (r: Joystick)
        ensures
            r.number == number,
    {
        Joystick { number }
    }
}

} // verus!
