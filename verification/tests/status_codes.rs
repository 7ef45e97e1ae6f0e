//! Status code translation: the two vendor tables, the unknown bucket, and
//! determinism.

use robot_hal::error::{FfiError, HalError};

#[test]
fn recognized_non_negative_codes_translate_to_their_names() {
    assert_eq!(HalError::from(1001), HalError::Hal(FfiError::SampleRateTooHigh));
    assert_eq!(HalError::from(1002), HalError::Hal(FfiError::VoltageOutOfRange));
    assert_eq!(HalError::from(1004), HalError::Hal(FfiError::LoopTimingError));
    assert_eq!(HalError::from(1012), HalError::Hal(FfiError::SpiWriteNoMosi));
    assert_eq!(HalError::from(1013), HalError::Hal(FfiError::SpiReadNoMiso));
    assert_eq!(HalError::from(1014), HalError::Hal(FfiError::SpiReadNoData));
    assert_eq!(HalError::from(1015), HalError::Hal(FfiError::IncompatibleState));
}

#[test]
fn recognized_negative_codes_translate_to_their_names() {
    assert_eq!(HalError::from(-104), HalError::Hal(FfiError::NoAvailableResources));
    assert_eq!(HalError::from(-1005), HalError::Hal(FfiError::NullParameter));
    assert_eq!(
        HalError::from(-1010),
        HalError::Hal(FfiError::AnalogTriggerLimitOrderError)
    );
    assert_eq!(
        HalError::from(-1011),
        HalError::Hal(FfiError::AnalogTriggerPulseOutputError)
    );
    assert_eq!(HalError::from(-1028), HalError::Hal(FfiError::ParameterOutOfRange));
    assert_eq!(HalError::from(-1029), HalError::Hal(FfiError::ResourceIsAllocated));
    assert_eq!(HalError::from(-1030), HalError::Hal(FfiError::ResourceOutOfRange));
    assert_eq!(
        HalError::from(-1035),
        HalError::Hal(FfiError::InvalidAccumulatorChannel)
    );
    assert_eq!(HalError::from(-1058), HalError::Hal(FfiError::CounterNotSupported));
    assert_eq!(HalError::from(-1072), HalError::Hal(FfiError::PwmScaleError));
    assert_eq!(HalError::from(-1098), HalError::Hal(FfiError::HandleError));
    assert_eq!(HalError::from(-1123), HalError::Hal(FfiError::SerialPortNotFound));
    assert_eq!(HalError::from(-1124), HalError::Hal(FfiError::SerialPortNotOpen));
    assert_eq!(HalError::from(-1125), HalError::Hal(FfiError::SerialPortError));
    assert_eq!(HalError::from(-1152), HalError::Hal(FfiError::ThreadPriorityError));
    assert_eq!(
        HalError::from(-1153),
        HalError::Hal(FfiError::ThreadPriorityRangeError)
    );
}

#[test]
fn codes_outside_both_tables_translate_to_unknown() {
    assert_eq!(HalError::from(0), HalError::Hal(FfiError::Unknown(0)));
    assert_eq!(HalError::from(999), HalError::Hal(FfiError::Unknown(999)));
    assert_eq!(HalError::from(1003), HalError::Hal(FfiError::Unknown(1003)));
    assert_eq!(HalError::from(i32::MAX), HalError::Hal(FfiError::Unknown(i32::MAX)));
    assert_eq!(HalError::from(-1), HalError::Hal(FfiError::Unknown(-1)));
    assert_eq!(HalError::from(-1006), HalError::Hal(FfiError::Unknown(-1006)));
    assert_eq!(HalError::from(i32::MIN), HalError::Hal(FfiError::Unknown(i32::MIN)));
}

#[test]
fn sign_decides_which_table_is_searched() {
    // the negative table's codes are not recognized with the sign flipped
    assert_eq!(HalError::from(104), HalError::Hal(FfiError::Unknown(104)));
    assert_eq!(HalError::from(1005), HalError::Hal(FfiError::Unknown(1005)));
    // and the non-negative table's codes are not recognized negated
    assert_eq!(HalError::from(-1001), HalError::Hal(FfiError::Unknown(-1001)));
    assert_eq!(HalError::from(-1015), HalError::Hal(FfiError::Unknown(-1015)));
}

#[test]
fn translation_is_deterministic() {
    for code in [0, 1, 1001, 1015, -104, -1153, 42424, -42424, i32::MAX, i32::MIN] {
        assert_eq!(HalError::from(code), HalError::from(code));
    }
}

#[test]
fn code_recovers_the_original_status() {
    assert_eq!(FfiError::SampleRateTooHigh.code(), 1001);
    assert_eq!(FfiError::IncompatibleState.code(), 1015);
    assert_eq!(FfiError::NoAvailableResources.code(), -104);
    assert_eq!(FfiError::ThreadPriorityRangeError.code(), -1153);
    assert_eq!(FfiError::Unknown(7777).code(), 7777);
    // translating a recovered code gives back the same condition
    for kind in [
        FfiError::SampleRateTooHigh,
        FfiError::LoopTimingError,
        FfiError::HandleError,
        FfiError::SerialPortError,
        FfiError::Unknown(-7),
    ] {
        assert_eq!(HalError::from(kind.code()), HalError::Hal(kind));
    }
}

#[test]
fn descriptions_name_the_error_class() {
    assert_eq!(
        HalError::Hal(FfiError::HandleError).description(),
        "native call returned a bad status code"
    );
    assert_eq!(
        HalError::NotInitialized.description(),
        "the native library is not initialized"
    );
    assert_eq!(HalError::InvalidChannel(99).description(), "invalid channel");
    assert_eq!(HalError::InvalidModule(3).description(), "invalid module");
    assert_eq!(HalError::Other.description(), "error in a higher-level wrapper");
}
