//! The readiness gate and the two halves of the calling protocol.

use robot_hal::error::{FfiError, HalError};
use robot_hal::gate::{begin_call, finish_call, finish_call_value, ReadinessGate};
use robot_hal::mock::MockHal;

#[test]
fn a_fresh_gate_is_unset() {
    let gate = ReadinessGate::new();
    assert!(!gate.is_ready());
}

#[test]
fn an_unset_gate_refuses_the_call_before_it_happens() {
    let gate = ReadinessGate::new();
    let native = MockHal::new();
    match begin_call(&gate) {
        Err(e) => assert_eq!(e, HalError::NotInitialized),
        Ok(_) => panic!("a runtime that is not ready must refuse the call"),
    }
    // no status cell was handed out, so nothing could have been invoked
    assert_eq!(native.call_count(), 0);
}

#[test]
fn a_failed_boot_leaves_the_gate_unset() {
    let mut gate = ReadinessGate::new();
    gate.complete_boot(false);
    assert!(!gate.is_ready());
    gate.complete_boot(true);
    assert!(gate.is_ready());
    // booting again, even unsuccessfully, does not lose readiness
    gate.complete_boot(false);
    assert!(gate.is_ready());
}

#[test]
fn a_set_gate_hands_out_a_zeroed_cell() {
    let mut gate = ReadinessGate::new();
    gate.complete_boot(true);
    let cell = begin_call(&gate).expect("a ready runtime admits the call");
    assert_eq!(cell.read(), 0);
    assert!(finish_call(cell).is_ok());
}

#[test]
fn a_zero_status_is_success_and_a_nonzero_one_is_translated() {
    let mut gate = ReadinessGate::new();
    gate.complete_boot(true);

    let mut cell = begin_call(&gate).unwrap();
    cell.write(0);
    assert_eq!(finish_call(cell), Ok(()));

    let mut cell = begin_call(&gate).unwrap();
    cell.write(-1029);
    assert_eq!(
        finish_call(cell),
        Err(HalError::Hal(FfiError::ResourceIsAllocated))
    );

    let mut cell = begin_call(&gate).unwrap();
    cell.write(31337);
    assert_eq!(
        finish_call(cell),
        Err(HalError::Hal(FfiError::Unknown(31337)))
    );
}

#[test]
fn a_returned_value_is_only_meaningful_on_success() {
    let mut gate = ReadinessGate::new();
    gate.complete_boot(true);

    let cell = begin_call(&gate).unwrap();
    assert_eq!(finish_call_value(cell, 17i32), Ok(17));

    let mut cell = begin_call(&gate).unwrap();
    cell.write(1001);
    assert_eq!(
        finish_call_value(cell, 17i32),
        Err(HalError::Hal(FfiError::SampleRateTooHigh))
    );
}

#[test]
fn the_scripted_status_reaches_the_cell_through_the_double() {
    let mut gate = ReadinessGate::new();
    gate.complete_boot(true);
    let mut native = MockHal::new();
    native.script_status(-1098);

    let mut cell = begin_call(&gate).unwrap();
    native.invoke(&mut cell);
    assert_eq!(native.call_count(), 1);
    assert_eq!(finish_call(cell), Err(HalError::Hal(FfiError::HandleError)));
}
