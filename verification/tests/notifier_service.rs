//! The notifier service against the native double: absolute deadlines,
//! period changes, and the stop-join-free shutdown order.

use robot_hal::error::{FfiError, HalError};
use robot_hal::gate::ReadinessGate;
use robot_hal::mock::MockHal;
use robot_hal::notifier::Notifier;

fn ready_gate() -> ReadinessGate {
    let mut gate = ReadinessGate::new();
    gate.complete_boot(true);
    gate
}

#[test]
fn an_unset_gate_starts_nothing() {
    let gate = ReadinessGate::new();
    let mut native = MockHal::new();
    match Notifier::start_sim(1000, &gate, &mut native) {
        Err(e) => assert_eq!(e, HalError::NotInitialized),
        Ok(_) => panic!("the runtime is not ready"),
    }
    assert_eq!(native.call_count(), 0);
}

#[test]
fn a_failed_handle_allocation_starts_no_loop() {
    let gate = ready_gate();
    let mut native = MockHal::new();
    native.script_status(-104);
    match Notifier::start_sim(1000, &gate, &mut native) {
        Err(e) => assert_eq!(e, HalError::Hal(FfiError::NoAvailableResources)),
        Ok(_) => panic!("the allocation was scripted to fail"),
    }
    assert_eq!(native.live_count(), 0);
}

#[test]
fn n_ticks_of_period_p_take_exactly_n_times_p() {
    let gate = ready_gate();
    let mut native = MockHal::new();
    let mut notifier = Notifier::start_sim(20_000, &gate, &mut native).unwrap();
    assert!(notifier.is_running());
    assert_eq!(notifier.deadline(), 0);

    for _ in 0..5 {
        notifier.tick_sim(&gate, &mut native);
    }
    // five ticks of 20000 elapse exactly 100000 hardware time units
    assert_eq!(native.now(), 100_000);
    assert_eq!(notifier.deadline(), 100_000);
}

#[test]
fn deadlines_are_absolute_so_jitter_does_not_accumulate() {
    let gate = ready_gate();
    let mut native = MockHal::new();
    let mut notifier = Notifier::start_sim(10_000, &gate, &mut native).unwrap();

    for _ in 0..10 {
        notifier.tick_sim(&gate, &mut native);
        // a slow callback burns some of the next period after every tick;
        // the next deadline is still the previous deadline plus the period
        native.advance_clock(2_500);
    }
    assert_eq!(notifier.deadline(), 100_000);
    // the clock sits past the last deadline only by the last callback's work
    assert_eq!(native.now(), 102_500);
}

#[test]
fn a_new_period_takes_effect_on_the_alarm_after_the_pending_one() {
    let gate = ready_gate();
    let mut native = MockHal::new();
    let mut notifier = Notifier::start_sim(10, &gate, &mut native).unwrap();

    notifier.tick_sim(&gate, &mut native);
    assert_eq!(notifier.deadline(), 10);

    notifier.set_period(25);
    // the deadline already armed is untouched
    assert_eq!(notifier.deadline(), 10);
    assert_eq!(notifier.period(), 25);

    notifier.tick_sim(&gate, &mut native);
    assert_eq!(notifier.deadline(), 35);
}

#[test]
fn cancel_aborts_the_pending_alarm_without_stopping_the_service() {
    let gate = ready_gate();
    let mut native = MockHal::new();
    let notifier = Notifier::start_sim(50, &gate, &mut native).unwrap();
    assert!(!native.is_armed());
    assert_eq!(notifier.cancel_sim(&gate, &mut native), Ok(()));
    assert!(!native.is_armed());
    assert!(notifier.is_running());

    let unset = ReadinessGate::new();
    assert_eq!(
        notifier.cancel_sim(&unset, &mut native),
        Err(HalError::NotInitialized)
    );
}

#[test]
fn shutdown_stops_joins_and_frees_in_that_order() {
    let gate = ready_gate();
    let mut native = MockHal::new();
    let mut notifier = Notifier::start_sim(1_000, &gate, &mut native).unwrap();
    let handle = notifier.port().0;

    notifier.tick_sim(&gate, &mut native);
    notifier.tick_sim(&gate, &mut native);

    notifier.shutdown_sim(&mut native);
    assert!(!notifier.is_running());
    assert!(native.was_freed(handle));
    assert!(!native.is_live(handle));
    // the double saw no free while the handle could still be waited on
    assert!(!native.has_fault());
}

#[test]
fn the_shutdown_steps_walk_the_lifecycle_one_transition_at_a_time() {
    let gate = ready_gate();
    let mut native = MockHal::new();
    let mut notifier = Notifier::start_sim(500, &gate, &mut native).unwrap();
    let handle = notifier.port().0;

    notifier.begin_stop(&mut native);
    assert!(!notifier.is_running());
    // stopping disarms the alarm so a blocked wait returns promptly
    assert!(!native.is_armed());
    assert!(!native.was_freed(handle));

    notifier.confirm_joined();
    assert!(!native.was_freed(handle));

    notifier.free_sim(&mut native);
    assert!(native.was_freed(handle));
    assert!(!native.has_fault());
}
