//! Status codes and the typed error taxonomy.
//!
//! Every fallible native call writes a signed 32-bit status code through a
//! trailing out-parameter: `0` on success, a nonzero code on failure. The
//! vendor maintains two disjoint code tables, one of non-negative and one of
//! negative codes, so translation branches on the sign before matching the
//! value. Codes in neither table translate to `FfiError::Unknown`; the
//! translation itself never fails.

use vstd::prelude::*;

verus! {

pub const SAMPLE_RATE_TOO_HIGH: i32 = 1001;
pub const VOLTAGE_OUT_OF_RANGE: i32 = 1002;
pub const LOOP_TIMING_ERROR: i32 = 1004;
pub const SPI_WRITE_NO_MOSI: i32 = 1012;
pub const SPI_READ_NO_MISO: i32 = 1013;
pub const SPI_READ_NO_DATA: i32 = 1014;
pub const INCOMPATIBLE_STATE: i32 = 1015;

pub const NO_AVAILABLE_RESOURCES: i32 = -104;
pub const NULL_PARAMETER: i32 = -1005;
pub const ANALOG_TRIGGER_LIMIT_ORDER_ERROR: i32 = -1010;
pub const ANALOG_TRIGGER_PULSE_OUTPUT_ERROR: i32 = -1011;
pub const PARAMETER_OUT_OF_RANGE: i32 = -1028;
pub const RESOURCE_IS_ALLOCATED: i32 = -1029;
pub const RESOURCE_OUT_OF_RANGE: i32 = -1030;
pub const HAL_INVALID_ACCUMULATOR_CHANNEL: i32 = -1035;
pub const HAL_COUNTER_NOT_SUPPORTED: i32 = -1058;
pub const HAL_PWM_SCALE_ERROR: i32 = -1072;
pub const HAL_HANDLE_ERROR: i32 = -1098;
pub const HAL_SERIAL_PORT_NOT_FOUND: i32 = -1123;
pub const HAL_SERIAL_PORT_OPEN_ERROR: i32 = -1124;
pub const HAL_SERIAL_PORT_ERROR: i32 = -1125;
pub const HAL_THREAD_PRIORITY_ERROR: i32 = -1152;
pub const HAL_THREAD_PRIORITY_RANGE_ERROR: i32 = -1153;

/// A named failure condition recovered from a native status code, with an
/// `Unknown` bucket for vendor codes that have no named mapping.
#[derive(Clone, Copy, Debug, PartialEq, Eq, Structural)]
pub enum FfiError {
    SampleRateTooHigh,
    VoltageOutOfRange,
    LoopTimingError,
    SpiWriteNoMosi,
    SpiReadNoMiso,
    SpiReadNoData,
    IncompatibleState,
    NoAvailableResources,
    NullParameter,
    AnalogTriggerLimitOrderError,
    AnalogTriggerPulseOutputError,
    ParameterOutOfRange,
    ResourceIsAllocated,
    ResourceOutOfRange,
    InvalidAccumulatorChannel,
    CounterNotSupported,
    PwmScaleError,
    HandleError,
    SerialPortNotFound,
    SerialPortNotOpen,
    SerialPortError,
    ThreadPriorityError,
    ThreadPriorityRangeError,
    /// A status code without an associated named condition.
    Unknown(i32),
}

/// The umbrella error type surfaced to callers. Raw status codes are never
/// exposed: a native failure is translated at the call boundary into
/// `Hal(..)`, while `NotInitialized`, `InvalidChannel` and `InvalidModule`
/// are raised locally before any native call is attempted.
#[derive(Clone, Copy, Debug, PartialEq, Eq, Structural)]
pub enum HalError {
    /// A nonzero status code written by a native call.
    Hal(FfiError),
    /// The readiness gate was not set when a hardware call was attempted.
    NotInitialized,
    /// A channel number that is out of range for the hardware domain,
    /// rejected before any native call.
    InvalidChannel(i32),
    /// A module number that is out of range for the hardware domain,
    /// rejected before any native call.
    InvalidModule(i32),
    /// Escape hatch for errors of higher-level wrappers.
    Other,
}

/// Whether a status code has a named condition in one of the two vendor
/// tables.
pub open spec fn recognized_status(code: i32) -> bool {
    ||| code == SAMPLE_RATE_TOO_HIGH
    ||| code == VOLTAGE_OUT_OF_RANGE
    ||| code == LOOP_TIMING_ERROR
    ||| code == SPI_WRITE_NO_MOSI
    ||| code == SPI_READ_NO_MISO
    ||| code == SPI_READ_NO_DATA
    ||| code == INCOMPATIBLE_STATE
    ||| code == NO_AVAILABLE_RESOURCES
    ||| code == NULL_PARAMETER
    ||| code == ANALOG_TRIGGER_LIMIT_ORDER_ERROR
    ||| code == ANALOG_TRIGGER_PULSE_OUTPUT_ERROR
    ||| code == PARAMETER_OUT_OF_RANGE
    ||| code == RESOURCE_IS_ALLOCATED
    ||| code == RESOURCE_OUT_OF_RANGE
    ||| code == HAL_INVALID_ACCUMULATOR_CHANNEL
    ||| code == HAL_COUNTER_NOT_SUPPORTED
    ||| code == HAL_PWM_SCALE_ERROR
    ||| code == HAL_HANDLE_ERROR
    ||| code == HAL_SERIAL_PORT_NOT_FOUND
    ||| code == HAL_SERIAL_PORT_OPEN_ERROR
    ||| code == HAL_SERIAL_PORT_ERROR
    ||| code == HAL_THREAD_PRIORITY_ERROR
    ||| code == HAL_THREAD_PRIORITY_RANGE_ERROR
}

/// The translation of a status code into its named condition. The
/// non-negative and the negative codes come from two disjoint vendor
/// enumerations, so the sign is inspected before the value is matched.
pub open spec fn translate_status(code: i32) -> FfiError {
    if code >= 0 {
        if code == SAMPLE_RATE_TOO_HIGH {
            FfiError::SampleRateTooHigh
        } else if code == VOLTAGE_OUT_OF_RANGE {
            FfiError::VoltageOutOfRange
        } else if code == LOOP_TIMING_ERROR {
            FfiError::LoopTimingError
        } else if code == SPI_WRITE_NO_MOSI {
            FfiError::SpiWriteNoMosi
        } else if code == SPI_READ_NO_MISO {
            FfiError::SpiReadNoMiso
        } else if code == SPI_READ_NO_DATA {
            FfiError::SpiReadNoData
        } else if code == INCOMPATIBLE_STATE {
            FfiError::IncompatibleState
        } else {
            FfiError::Unknown(code)
        }
    } else {
        if code == NO_AVAILABLE_RESOURCES {
            FfiError::NoAvailableResources
        } else if code == NULL_PARAMETER {
            FfiError::NullParameter
        } else if code == ANALOG_TRIGGER_LIMIT_ORDER_ERROR {
            FfiError::AnalogTriggerLimitOrderError
        } else if code == ANALOG_TRIGGER_PULSE_OUTPUT_ERROR {
            FfiError::AnalogTriggerPulseOutputError
        } else if code == PARAMETER_OUT_OF_RANGE {
            FfiError::ParameterOutOfRange
        } else if code == RESOURCE_IS_ALLOCATED {
            FfiError::ResourceIsAllocated
        } else if code == RESOURCE_OUT_OF_RANGE {
            FfiError::ResourceOutOfRange
        } else if code == HAL_INVALID_ACCUMULATOR_CHANNEL {
            FfiError::InvalidAccumulatorChannel
        } else if code == HAL_COUNTER_NOT_SUPPORTED {
            FfiError::CounterNotSupported
        } else if code == HAL_PWM_SCALE_ERROR {
            FfiError::PwmScaleError
        } else if code == HAL_HANDLE_ERROR {
            FfiError::HandleError
        } else if code == HAL_SERIAL_PORT_NOT_FOUND {
            FfiError::SerialPortNotFound
        } else if code == HAL_SERIAL_PORT_OPEN_ERROR {
            FfiError::SerialPortNotOpen
        } else if code == HAL_SERIAL_PORT_ERROR {
            FfiError::SerialPortError
        } else if code == HAL_THREAD_PRIORITY_ERROR {
            FfiError::ThreadPriorityError
        } else if code == HAL_THREAD_PRIORITY_RANGE_ERROR {
            FfiError::ThreadPriorityRangeError
        } else {
            FfiError::Unknown(code)
        }
    }
}

impl FfiError {
    /// The status code this condition was recovered from.
    pub open spec fn spec_code(&self) -> i32 {
        match *self {
            FfiError::SampleRateTooHigh => SAMPLE_RATE_TOO_HIGH,
            FfiError::VoltageOutOfRange => VOLTAGE_OUT_OF_RANGE,
            FfiError::LoopTimingError => LOOP_TIMING_ERROR,
            FfiError::SpiWriteNoMosi => SPI_WRITE_NO_MOSI,
            FfiError::SpiReadNoMiso => SPI_READ_NO_MISO,
            FfiError::SpiReadNoData => SPI_READ_NO_DATA,
            FfiError::IncompatibleState => INCOMPATIBLE_STATE,
            FfiError::NoAvailableResources => NO_AVAILABLE_RESOURCES,
            FfiError::NullParameter => NULL_PARAMETER,
            FfiError::AnalogTriggerLimitOrderError => ANALOG_TRIGGER_LIMIT_ORDER_ERROR,
            FfiError::AnalogTriggerPulseOutputError => ANALOG_TRIGGER_PULSE_OUTPUT_ERROR,
            FfiError::ParameterOutOfRange => PARAMETER_OUT_OF_RANGE,
            FfiError::ResourceIsAllocated => RESOURCE_IS_ALLOCATED,
            FfiError::ResourceOutOfRange => RESOURCE_OUT_OF_RANGE,
            FfiError::InvalidAccumulatorChannel => HAL_INVALID_ACCUMULATOR_CHANNEL,
            FfiError::CounterNotSupported => HAL_COUNTER_NOT_SUPPORTED,
            FfiError::PwmScaleError => HAL_PWM_SCALE_ERROR,
            FfiError::HandleError => HAL_HANDLE_ERROR,
            FfiError::SerialPortNotFound => HAL_SERIAL_PORT_NOT_FOUND,
            FfiError::SerialPortNotOpen => HAL_SERIAL_PORT_OPEN_ERROR,
            FfiError::SerialPortError => HAL_SERIAL_PORT_ERROR,
            FfiError::ThreadPriorityError => HAL_THREAD_PRIORITY_ERROR,
            FfiError::ThreadPriorityRangeError => HAL_THREAD_PRIORITY_RANGE_ERROR,
            FfiError::Unknown(code) => code,
        }
    }

    /// Recover the status code behind this condition, so that a caller can
    /// ask the native library for the authoritative message text.
    pub fn code(&self) -> (r: i32)
        ensures
            r == self.spec_code(),
    {
        match *self {
            FfiError::SampleRateTooHigh => SAMPLE_RATE_TOO_HIGH,
            FfiError::VoltageOutOfRange => VOLTAGE_OUT_OF_RANGE,
            FfiError::LoopTimingError => LOOP_TIMING_ERROR,
            FfiError::SpiWriteNoMosi => SPI_WRITE_NO_MOSI,
            FfiError::SpiReadNoMiso => SPI_READ_NO_MISO,
            FfiError::SpiReadNoData => SPI_READ_NO_DATA,
            FfiError::IncompatibleState => INCOMPATIBLE_STATE,
            FfiError::NoAvailableResources => NO_AVAILABLE_RESOURCES,
            FfiError::NullParameter => NULL_PARAMETER,
            FfiError::AnalogTriggerLimitOrderError => ANALOG_TRIGGER_LIMIT_ORDER_ERROR,
            FfiError::AnalogTriggerPulseOutputError => ANALOG_TRIGGER_PULSE_OUTPUT_ERROR,
            FfiError::ParameterOutOfRange => PARAMETER_OUT_OF_RANGE,
            FfiError::ResourceIsAllocated => RESOURCE_IS_ALLOCATED,
            FfiError::ResourceOutOfRange => RESOURCE_OUT_OF_RANGE,
            FfiError::InvalidAccumulatorChannel => HAL_INVALID_ACCUMULATOR_CHANNEL,
            FfiError::CounterNotSupported => HAL_COUNTER_NOT_SUPPORTED,
            FfiError::PwmScaleError => HAL_PWM_SCALE_ERROR,
            FfiError::HandleError => HAL_HANDLE_ERROR,
            FfiError::SerialPortNotFound => HAL_SERIAL_PORT_NOT_FOUND,
            FfiError::SerialPortNotOpen => HAL_SERIAL_PORT_OPEN_ERROR,
            FfiError::SerialPortError => HAL_SERIAL_PORT_ERROR,
            FfiError::ThreadPriorityError => HAL_THREAD_PRIORITY_ERROR,
            FfiError::ThreadPriorityRangeError => HAL_THREAD_PRIORITY_RANGE_ERROR,
            FfiError::Unknown(code) => code,
        }
    }
}

impl From<i32> for HalError {
    /// Translate a nonzero status code written by a native call. Total on
    /// every code: an unrecognized code becomes `Hal(Unknown(code))`.
    fn from(code: i32) -> (r: HalError) {
        let kind = if code >= 0 {
            if code == SAMPLE_RATE_TOO_HIGH {
                FfiError::SampleRateTooHigh
            } else if code == VOLTAGE_OUT_OF_RANGE {
                FfiError::VoltageOutOfRange
            } else if code == LOOP_TIMING_ERROR {
                FfiError::LoopTimingError
            } else if code == SPI_WRITE_NO_MOSI {
                FfiError::SpiWriteNoMosi
            } else if code == SPI_READ_NO_MISO {
                FfiError::SpiReadNoMiso
            } else if code == SPI_READ_NO_DATA {
                FfiError::SpiReadNoData
            } else if code == INCOMPATIBLE_STATE {
                FfiError::IncompatibleState
            } else {
                FfiError::Unknown(code)
            }
        } else {
            if code == NO_AVAILABLE_RESOURCES {
                FfiError::NoAvailableResources
            } else if code == NULL_PARAMETER {
                FfiError::NullParameter
            } else if code == ANALOG_TRIGGER_LIMIT_ORDER_ERROR {
                FfiError::AnalogTriggerLimitOrderError
            } else if code == ANALOG_TRIGGER_PULSE_OUTPUT_ERROR {
                FfiError::AnalogTriggerPulseOutputError
            } else if code == PARAMETER_OUT_OF_RANGE {
                FfiError::ParameterOutOfRange
            } else if code == RESOURCE_IS_ALLOCATED {
                FfiError::ResourceIsAllocated
            } else if code == RESOURCE_OUT_OF_RANGE {
                FfiError::ResourceOutOfRange
            } else if code == HAL_INVALID_ACCUMULATOR_CHANNEL {
                FfiError::InvalidAccumulatorChannel
            } else if code == HAL_COUNTER_NOT_SUPPORTED {
                FfiError::CounterNotSupported
            } else if code == HAL_PWM_SCALE_ERROR {
                FfiError::PwmScaleError
            } else if code == HAL_HANDLE_ERROR {
                FfiError::HandleError
            } else if code == HAL_SERIAL_PORT_NOT_FOUND {
                FfiError::SerialPortNotFound
            } else if code == HAL_SERIAL_PORT_OPEN_ERROR {
                FfiError::SerialPortNotOpen
            } else if code == HAL_SERIAL_PORT_ERROR {
                FfiError::SerialPortError
            } else if code == HAL_THREAD_PRIORITY_ERROR {
                FfiError::ThreadPriorityError
            } else if code == HAL_THREAD_PRIORITY_RANGE_ERROR {
                FfiError::ThreadPriorityRangeError
            } else {
                FfiError::Unknown(code)
            }
        };
        HalError::Hal(kind)
    }
}

impl HalError {
    /// A short fixed description of the error class. The authoritative
    /// message text for a translated native code lives in the native
    /// library, looked up by the code `FfiError::code` recovers, so that
    /// the text always matches the linked native version.
    pub fn description(&self) -> (r: &'static str)
        ensures
            *self matches HalError::Hal(_) ==> r@ == "native call returned a bad status code"@,
            *self is NotInitialized ==> r@ == "the native library is not initialized"@,
            *self matches HalError::InvalidChannel(_) ==> r@ == "invalid channel"@,
            *self matches HalError::InvalidModule(_) ==> r@ == "invalid module"@,
            *self is Other ==> r@ == "error in a higher-level wrapper"@,
    {
        match *self {
            HalError::Hal(_) => "native call returned a bad status code",
            HalError::NotInitialized => "the native library is not initialized",
            HalError::InvalidChannel(_) => "invalid channel",
            HalError::InvalidModule(_) => "invalid module",
            HalError::Other => "error in a higher-level wrapper",
        }
    }
}

impl vstd::std_specs::convert::FromSpecImpl<i32> for HalError {
    open spec fn obeys_from_spec() -> bool {
        true
    }

    open spec fn from_spec(code: i32) -> HalError {
        HalError::Hal(translate_status(code))
    }
}

/// Translating a status code is a function of the code alone: two
/// translations of the same code are equal.
pub proof fn lemma_translation_deterministic(code: i32, a: FfiError, b: FfiError)
    requires
        a == translate_status(code),
        b == translate_status(code),
    ensures
        a == b,
{
}

/// A status code translates to `Unknown(code)` exactly when it stands in
/// neither vendor table; translation is total and never fails.
pub proof fn lemma_unrecognized_is_unknown(code: i32)
    ensures
        translate_status(code) == FfiError::Unknown(code) <==> !recognized_status(code),
{
}

/// On the codes the vendor tables name, translation and `FfiError::code`
/// are mutually inverse; an unknown code carries itself.
pub proof fn lemma_code_round_trip(e: FfiError)
    requires
        e matches FfiError::Unknown(c) ==> !recognized_status(c),
    ensures
        translate_status(e.spec_code()) == e,
{
}

} // verus!
