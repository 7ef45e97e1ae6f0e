//! Local validation that runs before any native call.
//!
//! The native library's own channel and module bounds checks are
//! inconsistent across hardware domains, so every allocation path validates
//! its channel or module number locally first and fails fast with a local
//! error. A rejected number never reaches the native library.

use vstd::prelude::*;

use crate::error::HalError;

verus! {

/// Validate a channel number against the channel count of its hardware
/// domain. Exactly the numbers in `0..channel_count` pass.
pub fn check_channel(channel: i32, channel_count: i32) -> (r: Result<(), HalError>)
    ensures
        r is Ok <==> 0 <= channel < channel_count,
        !(0 <= channel < channel_count) ==> r == Err::<(), HalError>(
            HalError::InvalidChannel(channel),
        ),
{
    if 0 <= channel && channel < channel_count {
        Ok(())
    } else {
        Err(HalError::InvalidChannel(channel))
    }
}

/// Interpret a handle value a native port lookup returned: zero is the
/// native library's sentinel for an invalid port.
pub fn check_invalid(value: i32) -> (r: Option<i32>)
    ensures
        value == 0 ==> r is None,
        value != 0 ==> r == Some(value),
{
    if value == 0 {
        None
    } else {
        Some(value)
    }
}

/// Validate a module number against the module count of its hardware
/// domain. Exactly the numbers in `0..module_count` pass.
pub fn check_module(module: i32, module_count: i32) -> (r: Result<(), HalError>)
    ensures
        r is Ok <==> 0 <= module < module_count,
        !(0 <= module < module_count) ==> r == Err::<(), HalError>(HalError::InvalidModule(module)),
{
    if 0 <= module && module < module_count {
        Ok(())
    } else {
        Err(HalError::InvalidModule(module))
    }
}

} // verus!
