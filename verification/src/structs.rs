//! Decoded driver station records: the control word unpacked into flags,
//! and joystick records in their unpacked form.

use vstd::prelude::*;

use crate::joystick::{Buttons, Descriptor, JoystickType, Povs};

verus! {

/// The driver station control word, one flag per field. Only one of
/// `enabled`, `autonomous` and `test` should be on at a time.
#[derive(Clone, Copy, Debug, PartialEq, Eq, Hash, Structural)]
pub struct ControlWord {
    /// Whether the robot is enabled.
    pub enabled: bool,
    /// Whether the robot is in autonomous mode.
    pub autonomous: bool,
    /// Whether the robot is in test mode.
    pub test: bool,
    /// Whether the robot is emergency-stopped.
    pub stopped: bool,
    /// Whether the field management system is attached.
    pub fms_attached: bool,
    /// Whether the driver station is attached.
    pub ds_attached: bool,
}

impl ControlWord {
    /// A control word with every flag off.
    pub fn all_off() -> (r: ControlWord)
        ensures
            r == (ControlWord {
                enabled: false,
                autonomous: false,
                test: false,
                stopped: false,
                fms_attached: false,
                ds_attached: false,
            }),
    {
        ControlWord {
            enabled: false,
            autonomous: false,
            test: false,
            stopped: false,
            fms_attached: false,
            ds_attached: false,
        }
    }
}

impl From<crate::driverstation::ControlWord> for ControlWord {
    /// Unpack the native control word, one flag per bit from the least
    /// significant bit up.
    fn from(raw: crate::driverstation::ControlWord) -> (r: ControlWord) {
        ControlWord {
            enabled: raw.enabled(),
            autonomous: raw.autonomous(),
            test: raw.test(),
            stopped: raw.emergency_stop(),
            fms_attached: raw.fms_attached(),
            ds_attached: raw.ds_attached(),
        }
    }
}

impl vstd::std_specs::convert::FromSpecImpl<crate::driverstation::ControlWord> for ControlWord {
    open spec fn obeys_from_spec() -> bool {
        true
    }

    open spec fn from_spec(raw: crate::driverstation::ControlWord) -> ControlWord {
        ControlWord {
            enabled: raw.0 & 1 != 0,
            autonomous: (raw.0 >> 1) & 1 != 0,
            test: (raw.0 >> 2) & 1 != 0,
            stopped: (raw.0 >> 3) & 1 != 0,
            fms_attached: (raw.0 >> 4) & 1 != 0,
            ds_attached: (raw.0 >> 5) & 1 != 0,
        }
    }
}

/// Joystick hat switches in unpacked form; each entry is the hat's angle in
/// degrees.
#[derive(Clone, Copy, Debug, PartialEq, Eq, Hash)]
pub struct JoystickPovs {
    pub povs: [i16; 12],
    pub count: i16,
}

impl JoystickPovs {
    /// Unpack the native hat record.
    pub fn from(raw: Povs) -> (r: JoystickPovs)
        ensures
            r.povs == raw.povs,
            r.count == raw.count,
    {
        JoystickPovs { povs: raw.povs, count: raw.count }
    }
}

/// Joystick buttons in unpacked form: the native bitmask spread into one
/// flag per button.
#[derive(Clone, Debug, PartialEq, Eq, Hash)]
pub struct JoystickButtons {
    pub buttons_down: Vec<bool>,
    pub count: u16,
}

impl JoystickButtons {
    /// Unpack the native button record: flag `i` is bit `i` of the mask.
    pub fn from(raw: Buttons) -> (r: JoystickButtons)
        ensures
            r.buttons_down@.len() == 32,
            forall|i: int|
                0 <= i < 32 ==> r.buttons_down@[i] == ((raw.buttons >> (i as u32)) & 1 == 1),
            r.count == raw.count as u16,
    {
        let mut buttons_down: Vec<bool> = Vec::new();
        let mut i: u32 = 0;
        while i < 32
            invariant
                0 <= i <= 32,
                buttons_down@.len() == i,
                forall|k: int|
                    0 <= k < i ==> buttons_down@[k] == ((raw.buttons >> (k as u32)) & 1 == 1),
            decreases 32 - i,
        {
            buttons_down.push((raw.buttons >> i) & 1 == 1);
            i = i + 1;
        }
        JoystickButtons { buttons_down, count: raw.count as u16 }
    }
}

/// A joystick's description in unpacked form.
#[derive(Clone, Debug, PartialEq, Eq)]
pub struct JoystickDescriptor {
    pub name: String,
    pub is_xbox: bool,
    pub stick_type: JoystickType,
    pub button_count: u8,
    pub axis_count: u8,
    pub axis_types: [u8; 12],
    pub pov_count: u8,
}

impl JoystickDescriptor {
    /// Unpack the native description record.
    pub fn from(raw: Descriptor) -> (r: JoystickDescriptor)
        ensures
            r.name@ == raw.name@,
            r.is_xbox == (raw.is_xbox != 0),
            r.stick_type == JoystickType::Unknown(raw.stick_type as i32),
            r.button_count == raw.button_count,
            r.axis_count == raw.axis_count,
            r.axis_types == raw.axis_types,
            r.pov_count == raw.pov_count,
    {
        JoystickDescriptor {
            name: raw.name,
            is_xbox: raw.is_xbox != 0,
            stick_type: JoystickType::from(raw.stick_type as i32),
            button_count: raw.button_count,
            axis_count: raw.axis_count,
            axis_types: raw.axis_types,
            pov_count: raw.pov_count,
        }
    }
}

} // verus!
