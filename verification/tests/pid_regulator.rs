//! The integer PID regulator, on exact values.

use robot_hal::pid::PidSystem;

#[test]
fn one_tick_combines_the_three_terms() {
    let mut pid = PidSystem::new(2, 1, 1, 100);
    // error 10, integral 0 + 10*2 = 20, derivative (10 - 0) / 2 = 5
    let out = pid.tick(90, 2);
    assert_eq!(out, 2 * 10 + 1 * 20 + 1 * 5);
    assert_eq!(pid.previous_error, 10);
    assert_eq!(pid.integral, 20);
}

#[test]
fn the_derivative_differentiates_against_the_previous_tick() {
    let mut pid = PidSystem::new(2, 1, 1, 100);
    let _ = pid.tick(90, 2);
    // error 5, integral 20 + 5*2 = 30, derivative (5 - 10) / 2 = -2 toward zero
    let out = pid.tick(95, 2);
    assert_eq!(out, 2 * 5 + 1 * 30 + 1 * (-2));
    assert_eq!(pid.previous_error, 5);
    assert_eq!(pid.integral, 30);
}

#[test]
fn a_regulator_at_its_setpoint_holds_still() {
    let mut pid = PidSystem::new(3, 2, 1, 50);
    let out = pid.tick(50, 10);
    assert_eq!(out, 0);
    assert_eq!(pid.integral, 0);
    assert_eq!(pid.previous_error, 0);
}

#[test]
fn negative_errors_pull_the_output_down() {
    let mut pid = PidSystem::new(1, 0, 0, 0);
    // input above the setpoint: error -25
    let out = pid.tick(25, 1);
    assert_eq!(out, -25);
    assert_eq!(pid.previous_error, -25);
}
