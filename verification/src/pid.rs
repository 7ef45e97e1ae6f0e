//! An integer PID regulator.
//!
//! One tick reads the measured input and the time step, accumulates the
//! integral, differentiates against the previous error, and combines the
//! three terms with the configured gains. The control loop itself — reading
//! the sensor, sleeping out the period, driving the output — is the caller's;
//! a notifier gives it a drift-free time base.

use vstd::prelude::*;

use vstd::arithmetic::div_mod::{lemma_div_nonincreasing, lemma_div_pos_is_pos};

verus! {

/// Integer division rounding toward zero, as the hardware divide rounds.
pub open spec fn div_toward_zero_spec(a: int, b: int) -> int
    recommends
        b > 0,
{
    if a >= 0 {
        a / b
    } else {
        -((-a) / b)
    }
}

/// Divide rounding toward zero. The one dividend left out is `i64::MIN`,
/// whose magnitude has no counterpart.
fn div_toward_zero(a: i64, b: i64) -> (r: i64)
    requires
        b > 0,
        a > i64::MIN,
    ensures
        r == div_toward_zero_spec(a as int, b as int),
{
    if a >= 0 {
        let q = (a as u64) / (b as u64);
        proof {
            lemma_div_nonincreasing(a as int, b as int);
            lemma_div_pos_is_pos(a as int, b as int);
        }
        q as i64
    } else {
        let neg = -a;
        let q = (neg as u64) / (b as u64);
        proof {
            lemma_div_nonincreasing(neg as int, b as int);
            lemma_div_pos_is_pos(neg as int, b as int);
        }
        -(q as i64)
    }
}

/// A PID regulator over integer measurements: proportional, integral and
/// derivative gains, the setpoint, and the running state of the regulator.
#[derive(Clone, Copy, Debug, PartialEq, Eq, Hash)]
pub struct PidSystem {
    /// The proportional, integral and derivative gains, in that order.
    pub pid: (i32, i32, i32),
    /// The error of the previous tick, for the derivative term.
    pub previous_error: i64,
    /// The accumulated integral term.
    pub integral: i64,
    /// The value the regulator drives the input toward.
    pub setpoint: i64,
}

impl PidSystem {
    /// The error a tick computes: how far the input is below the setpoint.
    pub open spec fn spec_error(&self, input: int) -> int {
        self.setpoint - input
    }

    /// The integral after a tick: the error accumulated over the time step.
    pub open spec fn spec_integral(&self, input: int, dt: int) -> int {
        self.integral + self.spec_error(input) * dt
    }

    /// The derivative a tick computes: the error's change per time unit,
    /// rounded toward zero.
    pub open spec fn spec_derivative(&self, input: int, dt: int) -> int {
        div_toward_zero_spec(self.spec_error(input) - self.previous_error, dt)
    }

    /// The output of a tick: the three terms weighted by their gains.
    pub open spec fn spec_output(&self, input: int, dt: int) -> int {
        self.pid.0 * self.spec_error(input) + self.pid.1 * self.spec_integral(input, dt)
            + self.pid.2 * self.spec_derivative(input, dt)
    }

    /// A fresh regulator with the given gains and setpoint; nothing has
    /// been accumulated yet.
    pub fn new(kp: i32, ki: i32, kd: i32, setpoint: i64) -> (r: PidSystem)
        ensures
            r.pid == (kp, ki, kd),
            r.previous_error == 0,
            r.integral == 0,
            r.setpoint == setpoint,
    {
        PidSystem { pid: (kp, ki, kd), previous_error: 0, integral: 0, setpoint }
    }

    /// One regulator tick: fold the measured input and the time step into
    /// the error, integral and derivative terms, and return the weighted
    /// output. The bounds keep every intermediate inside the machine
    /// integers.
    pub fn tick(&mut self, input: i64, dt: u64) -> (r: i64)
        requires
            1 <= dt <= i64::MAX,
            i64::MIN < old(self).spec_error(input as int) <= i64::MAX,
            i64::MIN < old(self).spec_error(input as int) - old(self).previous_error <= i64::MAX,
            i64::MIN <= old(self).spec_error(input as int) * dt <= i64::MAX,
            i64::MIN <= old(self).spec_integral(input as int, dt as int) <= i64::MAX,
            i64::MIN <= old(self).pid.0 * old(self).spec_error(input as int) <= i64::MAX,
            i64::MIN <= old(self).pid.1 * old(self).spec_integral(input as int, dt as int)
                <= i64::MAX,
            i64::MIN <= old(self).pid.2 * old(self).spec_derivative(input as int, dt as int)
                <= i64::MAX,
            i64::MIN <= old(self).pid.0 * old(self).spec_error(input as int) + old(self).pid.1
                * old(self).spec_integral(input as int, dt as int) <= i64::MAX,
            i64::MIN <= old(self).spec_output(input as int, dt as int) <= i64::MAX,
        ensures
            r == old(self).spec_output(input as int, dt as int),
            final(self).previous_error == old(self).spec_error(input as int),
            final(self).integral == old(self).spec_integral(input as int, dt as int),
            final(self).pid == old(self).pid,
            final(self).setpoint == old(self).setpoint,
    {
        let e = self.setpoint - input;
        let dti = dt as i64;
        let new_integral = self.integral + e * dti;
        let derivative = div_toward_zero(e - self.previous_error, dti);
        let out = (self.pid.0 as i64) * e + (self.pid.1 as i64) * new_integral + (
        self.pid.2 as i64) * derivative;
        self.previous_error = e;
        self.integral = new_integral;
        out
    }
}

} // verus!
