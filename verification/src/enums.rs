//! Small hardware enumerations and their wire codes.
//!
//! The native library hands these around as plain integers; each enumeration
//! here pairs the named values with the codes the native headers assign, and
//! decodes a code back to the name where one exists.

use vstd::prelude::*;

verus! {

/// What an analog trigger's output reports.
#[derive(Clone, Copy, Debug, PartialEq, Eq, Hash, Structural)]
pub enum AnalogTriggerType {
    InWindow,
    State,
    RisingPulse,
    FallingPulse,
}

impl AnalogTriggerType {
    /// The wire value of the trigger type.
    pub fn as_i32(&self) -> (r: i32)
        ensures
            *self is InWindow ==> r == 0,
            *self is State ==> r == 1,
            *self is RisingPulse ==> r == 2,
            *self is FallingPulse ==> r == 3,
    {
        match *self {
            AnalogTriggerType::InWindow => 0,
            AnalogTriggerType::State => 1,
            AnalogTriggerType::RisingPulse => 2,
            AnalogTriggerType::FallingPulse => 3,
        }
    }

    /// Decode a wire value; codes outside the enumeration have no name.
    pub fn from_wire(code: i32) -> (r: Option<AnalogTriggerType>)
        ensures
            code == 0 ==> r == Some(AnalogTriggerType::InWindow),
            code == 1 ==> r == Some(AnalogTriggerType::State),
            code == 2 ==> r == Some(AnalogTriggerType::RisingPulse),
            code == 3 ==> r == Some(AnalogTriggerType::FallingPulse),
            !(0 <= code <= 3) ==> r is None,
    {
        match code {
            0 => Some(AnalogTriggerType::InWindow),
            1 => Some(AnalogTriggerType::State),
            2 => Some(AnalogTriggerType::RisingPulse),
            3 => Some(AnalogTriggerType::FallingPulse),
            _ => None,
        }
    }
}

/// How a counter interprets its sources.
#[derive(Clone, Copy, Debug, PartialEq, Eq, Hash, Structural)]
pub enum CounterMode {
    TwoPulse,
    Semiperiod,
    PulseLength,
    ExternalDirection,
}

impl CounterMode {
    /// The wire value of the counter mode.
    pub fn as_i32(&self) -> (r: i32)
        ensures
            *self is TwoPulse ==> r == 0,
            *self is Semiperiod ==> r == 1,
            *self is PulseLength ==> r == 2,
            *self is ExternalDirection ==> r == 3,
    {
        match *self {
            CounterMode::TwoPulse => 0,
            CounterMode::Semiperiod => 1,
            CounterMode::PulseLength => 2,
            CounterMode::ExternalDirection => 3,
        }
    }

    /// Decode a wire value; codes outside the enumeration have no name.
    pub fn from_wire(code: i32) -> (r: Option<CounterMode>)
        ensures
            code == 0 ==> r == Some(CounterMode::TwoPulse),
            code == 1 ==> r == Some(CounterMode::Semiperiod),
            code == 2 ==> r == Some(CounterMode::PulseLength),
            code == 3 ==> r == Some(CounterMode::ExternalDirection),
            !(0 <= code <= 3) ==> r is None,
    {
        match code {
            0 => Some(CounterMode::TwoPulse),
            1 => Some(CounterMode::Semiperiod),
            2 => Some(CounterMode::PulseLength),
            3 => Some(CounterMode::ExternalDirection),
            _ => None,
        }
    }
}

/// Whether the program runs on the real controller or inside a simulation.
#[derive(Clone, Copy, Debug, PartialEq, Eq, Hash, Structural)]
pub enum RuntimeType {
    Native,
    Mock,
}

impl RuntimeType {
    /// Decode a wire value; codes outside the enumeration have no name.
    pub fn from_wire(code: i32) -> (r: Option<RuntimeType>)
        ensures
            code == 0 ==> r == Some(RuntimeType::Native),
            code == 1 ==> r == Some(RuntimeType::Mock),
            !(0 <= code <= 1) ==> r is None,
    {
        match code {
            0 => Some(RuntimeType::Native),
            1 => Some(RuntimeType::Mock),
            _ => None,
        }
    }
}

/// The measurement ranges of the onboard accelerometer.
#[derive(Clone, Copy, Debug, PartialEq, Eq, PartialOrd, Ord, Hash, Structural)]
pub enum AccelerometerRange {
    AccelerometerRange2G,
    AccelerometerRange4G,
    AccelerometerRange8G,
}

impl AccelerometerRange {
    /// The wire value of the range.
    pub fn as_i32(&self) -> (r: i32)
        ensures
            *self is AccelerometerRange2G ==> r == 0,
            *self is AccelerometerRange4G ==> r == 1,
            *self is AccelerometerRange8G ==> r == 2,
    {
        match *self {
            AccelerometerRange::AccelerometerRange2G => 0,
            AccelerometerRange::AccelerometerRange4G => 1,
            AccelerometerRange::AccelerometerRange8G => 2,
        }
    }

    /// Decode a wire value; codes outside the enumeration have no name.
    pub fn from_wire(code: i32) -> (r: Option<AccelerometerRange>)
        ensures
            code == 0 ==> r == Some(AccelerometerRange::AccelerometerRange2G),
            code == 1 ==> r == Some(AccelerometerRange::AccelerometerRange4G),
            code == 2 ==> r == Some(AccelerometerRange::AccelerometerRange8G),
            !(0 <= code <= 2) ==> r is None,
    {
        match code {
            0 => Some(AccelerometerRange::AccelerometerRange2G),
            1 => Some(AccelerometerRange::AccelerometerRange4G),
            2 => Some(AccelerometerRange::AccelerometerRange8G),
            _ => None,
        }
    }
}

} // verus!
