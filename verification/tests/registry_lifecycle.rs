//! The handle registry lifecycle against the native double: validation
//! before any call, allocation, and release exactly once.

use robot_hal::analog::{AnalogAccumulator, AnalogInput, AnalogOutput};
use robot_hal::error::{FfiError, HalError};
use robot_hal::gate::ReadinessGate;
use robot_hal::mock::MockHal;
use robot_hal::registry::{check_channel, check_module};

fn ready_gate() -> ReadinessGate {
    let mut gate = ReadinessGate::new();
    gate.complete_boot(true);
    gate
}

#[test]
fn channel_validation_accepts_exactly_the_domain_range() {
    assert!(check_channel(0, 16).is_ok());
    assert!(check_channel(15, 16).is_ok());
    assert_eq!(check_channel(16, 16), Err(HalError::InvalidChannel(16)));
    assert_eq!(check_channel(-1, 16), Err(HalError::InvalidChannel(-1)));
    assert_eq!(check_module(4, 4), Err(HalError::InvalidModule(4)));
    assert!(check_module(0, 4).is_ok());
}

#[test]
fn channel_three_of_sixteen_allocates_and_channel_ninety_nine_fails_locally() {
    let gate = ready_gate();
    let mut native = MockHal::new();

    let input = AnalogInput::open_sim(3, 16, &gate, &mut native).expect("channel 3 is in 0..16");
    assert_eq!(input.channel(), 3);
    assert!(input.active());
    assert_eq!(native.call_count(), 1);

    let before = native.call_count();
    match AnalogInput::open_sim(99, 16, &gate, &mut native) {
        Err(e) => assert_eq!(e, HalError::InvalidChannel(99)),
        Ok(_) => panic!("channel 99 is out of range"),
    }
    // the rejected channel issued zero native calls
    assert_eq!(native.call_count(), before);
}

#[test]
fn an_unset_gate_allocates_nothing_and_calls_nothing() {
    let gate = ReadinessGate::new();
    let mut native = MockHal::new();
    match AnalogInput::open_sim(3, 16, &gate, &mut native) {
        Err(e) => assert_eq!(e, HalError::NotInitialized),
        Ok(_) => panic!("the runtime is not ready"),
    }
    assert_eq!(native.call_count(), 0);
    assert_eq!(native.live_count(), 0);
}

#[test]
fn a_failed_allocation_leaves_no_handle_to_free() {
    let gate = ready_gate();
    let mut native = MockHal::new();
    native.script_status(-104);
    match AnalogInput::open_sim(5, 16, &gate, &mut native) {
        Err(e) => assert_eq!(e, HalError::Hal(FfiError::NoAvailableResources)),
        Ok(_) => panic!("the native allocation was scripted to fail"),
    }
    // the call happened, but no handle was left behind
    assert_eq!(native.call_count(), 1);
    assert_eq!(native.live_count(), 0);
    assert!(!native.has_fault());
}

#[test]
fn release_frees_the_handle_exactly_once() {
    let gate = ready_gate();
    let mut native = MockHal::new();
    let mut input = AnalogInput::open_sim(7, 16, &gate, &mut native).unwrap();
    let handle = input.port().0;
    assert!(native.is_live(handle));
    assert!(!native.was_freed(handle));

    input.release_sim(&mut native);
    assert!(!input.active());
    assert!(!native.is_live(handle));
    assert!(native.was_freed(handle));
    assert!(!native.has_fault());
    assert_eq!(native.call_count(), 2);
}

#[test]
fn the_double_records_a_fault_on_a_second_free() {
    let gate = ready_gate();
    let mut native = MockHal::new();
    let mut input = AnalogInput::open_sim(2, 16, &gate, &mut native).unwrap();
    let handle = input.port().0;
    input.release_sim(&mut native);
    assert!(!native.has_fault());
    // a second free of the same handle is undefined behavior natively; the
    // double records it instead of crashing
    native.release(handle);
    assert!(native.has_fault());
}

#[test]
fn outputs_follow_the_same_lifecycle() {
    let gate = ready_gate();
    let mut native = MockHal::new();

    match AnalogOutput::open_sim(9, 2, &gate, &mut native) {
        Err(e) => assert_eq!(e, HalError::InvalidChannel(9)),
        Ok(_) => panic!("channel 9 is out of the output range"),
    }
    assert_eq!(native.call_count(), 0);

    let mut output = AnalogOutput::open_sim(1, 2, &gate, &mut native).unwrap();
    assert_eq!(output.channel(), 1);
    output.release_sim(&mut native);
    assert!(!output.active());
    assert!(!native.has_fault());
}

#[test]
fn distinct_allocations_get_distinct_handles() {
    let gate = ready_gate();
    let mut native = MockHal::new();
    let a = AnalogInput::open_sim(0, 16, &gate, &mut native).unwrap();
    let b = AnalogInput::open_sim(1, 16, &gate, &mut native).unwrap();
    assert_ne!(a.port().0, b.port().0);
    assert!(native.is_live(a.port().0));
    assert!(native.is_live(b.port().0));
}

#[test]
fn an_accumulator_attaches_only_to_accumulator_channels() {
    let gate = ready_gate();
    let mut native = MockHal::new();
    let input = AnalogInput::open_sim(0, 16, &gate, &mut native).unwrap();

    let accumulator = AnalogAccumulator::new(&input, true, -512).unwrap();
    assert_eq!(accumulator.adjusted_value(2048), 1536);
    assert_eq!(accumulator.adjusted_value(0), -512);

    match AnalogAccumulator::new(&input, false, 0) {
        Err(e) => assert_eq!(e, HalError::InvalidChannel(0)),
        Ok(_) => panic!("the channel carries no accumulator"),
    }
}
