//! The periodic alarm notifier: state machine, drift-free deadlines, and
//! the shutdown ordering.
//!
//! A notifier owns one notifier handle and a background loop drives it: read
//! the hardware clock once at the start, then repeatedly advance an absolute
//! deadline by the current period, arm the hardware alarm for that deadline,
//! block until it fires, and invoke the user callback. The deadline is
//! absolute — each iteration's target is the previous deadline plus the
//! period, never "now plus the period" — so timer drift cannot accumulate.
//!
//! Shutdown must run stop, then join, then free, in that order: the native
//! free of a notifier handle is undefined behavior while the loop might
//! still be blocked inside a wait on that handle. The lifecycle state
//! machine makes any other order unreachable, and `lemma_free_strictly_after_join`
//! proves it of every trace the machine admits.

use vstd::prelude::*;

use crate::error::{translate_status, HalError};
use crate::gate::{begin_call, finish_call, ReadinessGate};
use crate::handle::NotifierHandle;
use crate::mock::MockHal;

verus! {

/// The lifecycle states of a notifier.
#[derive(Clone, Copy, Debug, PartialEq, Eq, Structural)]
pub enum NotifierState {
    /// The handle is allocated; the loop has not started.
    Created,
    /// The loop is running ticks.
    Running,
    /// The owner asked the loop to stop; the loop may still be finishing.
    Stopping,
    /// The loop has exited; the handle is still owned.
    Joined,
    /// The handle has been released. Terminal.
    Freed,
}

/// The lifecycle transitions of a notifier.
#[derive(Clone, Copy, Debug, PartialEq, Eq, Structural)]
pub enum NotifierEvent {
    /// The loop starts.
    Start,
    /// The owner requests shutdown and unblocks a pending wait.
    Stop,
    /// The owner observes that the loop has exited.
    Join,
    /// The handle is released.
    Free,
}

/// The transition relation of the notifier lifecycle. Everything not listed
/// is forbidden.
pub open spec fn lifecycle_step(s: NotifierState, e: NotifierEvent) -> Option<NotifierState> {
    match (s, e) {
        (NotifierState::Created, NotifierEvent::Start) => Some(NotifierState::Running),
        (NotifierState::Running, NotifierEvent::Stop) => Some(NotifierState::Stopping),
        (NotifierState::Stopping, NotifierEvent::Join) => Some(NotifierState::Joined),
        (NotifierState::Joined, NotifierEvent::Free) => Some(NotifierState::Freed),
        _ => None,
    }
}

/// Run a sequence of lifecycle events from a state; `None` when some event
/// is forbidden along the way.
pub open spec fn lifecycle_run(s: NotifierState, events: Seq<NotifierEvent>) -> Option<
    NotifierState,
>
    decreases events.len(),
{
    if events.len() == 0 {
        Some(s)
    } else {
        match lifecycle_step(s, events[0]) {
            Some(s2) => lifecycle_run(s2, events.drop_first()),
            None => None,
        }
    }
}

/// Appending one event to a valid run steps the final state once.
proof fn lemma_lifecycle_run_push(s0: NotifierState, events: Seq<NotifierEvent>, e: NotifierEvent)
    requires
        lifecycle_run(s0, events) is Some,
    ensures
        lifecycle_run(s0, events.push(e)) == lifecycle_step(
            lifecycle_run(s0, events)->Some_0,
            e,
        ),
    decreases events.len(),
{
    if events.len() == 0 {
        assert(events.push(e).drop_first() =~= Seq::<NotifierEvent>::empty());
        assert(events.push(e)[0] == e);
        assert(lifecycle_run(s0, events) == Some(s0));
        if lifecycle_step(s0, e) is Some {
            let s2 = lifecycle_step(s0, e)->Some_0;
            assert(lifecycle_run(s2, events.push(e).drop_first()) == Some(s2));
        }
    } else {
        assert(events.push(e)[0] == events[0]);
        assert(events.push(e).drop_first() =~= events.drop_first().push(e));
        let s1 = lifecycle_step(s0, events[0])->Some_0;
        assert(lifecycle_run(s0, events) == lifecycle_run(s1, events.drop_first()));
        lemma_lifecycle_run_push(s1, events.drop_first(), e);
        assert(lifecycle_run(s0, events.push(e)) == lifecycle_run(
            s1,
            events.drop_first().push(e),
        ));
    }
}

/// In every trace the lifecycle admits, the handle is freed only strictly
/// after the loop has been observed to exit: a `Free` event has a `Join`
/// event before it.
pub proof fn lemma_free_strictly_after_join(events: Seq<NotifierEvent>, i: int)
    requires
        lifecycle_run(NotifierState::Created, events) is Some,
        0 <= i < events.len(),
        events[i] is Free,
    ensures
        exists|j: int| 0 <= j < i && events[j] is Join,
{
    lemma_free_after_join_from(NotifierState::Created, events, i);
}

/// Helper for `lemma_free_strictly_after_join`, generalized over the start
/// state.
proof fn lemma_free_after_join_from(s: NotifierState, events: Seq<NotifierEvent>, i: int)
    requires
        s is Created || s is Running || s is Stopping,
        lifecycle_run(s, events) is Some,
        0 <= i < events.len(),
        events[i] is Free,
    ensures
        exists|j: int| 0 <= j < i && events[j] is Join,
    decreases events.len(),
{
    let e0 = events[0];
    if i == 0 {
        assert(lifecycle_step(s, e0) is None);
    } else {
        if e0 is Join {
            assert(0 <= 0 < i && events[0] is Join);
        } else {
            let s2 = lifecycle_step(s, e0)->Some_0;
            assert(events.drop_first()[i - 1] == events[i]);
            lemma_free_after_join_from(s2, events.drop_first(), i - 1);
            let j = choose|j: int| 0 <= j < i - 1 && events.drop_first()[j] is Join;
            assert(events[j + 1] == events.drop_first()[j]);
            assert(0 <= j + 1 < i && events[j + 1] is Join);
        }
    }
}

/// In every trace the lifecycle admits, the loop is observed to exit only
/// strictly after shutdown was requested: a `Join` event has a `Stop` event
/// before it.
pub proof fn lemma_join_strictly_after_stop(events: Seq<NotifierEvent>, i: int)
    requires
        lifecycle_run(NotifierState::Created, events) is Some,
        0 <= i < events.len(),
        events[i] is Join,
    ensures
        exists|j: int| 0 <= j < i && events[j] is Stop,
{
    lemma_join_after_stop_from(NotifierState::Created, events, i);
}

/// Helper for `lemma_join_strictly_after_stop`, generalized over the start
/// state.
proof fn lemma_join_after_stop_from(s: NotifierState, events: Seq<NotifierEvent>, i: int)
    requires
        s is Created || s is Running,
        lifecycle_run(s, events) is Some,
        0 <= i < events.len(),
        events[i] is Join,
    ensures
        exists|j: int| 0 <= j < i && events[j] is Stop,
    decreases events.len(),
{
    let e0 = events[0];
    if i == 0 {
        assert(lifecycle_step(s, e0) is None);
    } else {
        if e0 is Stop {
            assert(0 <= 0 < i && events[0] is Stop);
        } else {
            let s2 = lifecycle_step(s, e0)->Some_0;
            assert(events.drop_first()[i - 1] == events[i]);
            lemma_join_after_stop_from(s2, events.drop_first(), i - 1);
            let j = choose|j: int| 0 <= j < i - 1 && events.drop_first()[j] is Stop;
            assert(events[j + 1] == events.drop_first()[j]);
            assert(0 <= j + 1 < i && events[j + 1] is Stop);
        }
    }
}

/// The deadline of the nth tick when every tick advances the deadline by
/// the same period.
pub open spec fn nth_deadline(start: int, period: int, n: nat) -> int
    decreases n,
{
    if n == 0 {
        start
    } else {
        nth_deadline(start, period, (n - 1) as nat) + period
    }
}

/// Absolute deadlines do not drift: the nth deadline is exactly the start
/// plus n periods, however late each individual tick ran.
pub proof fn lemma_deadlines_do_not_drift(start: int, period: int, n: nat)
    ensures
        nth_deadline(start, period, n) == start + n * period,
    decreases n,
{
    if n == 0 {
        assert(0int * period == 0) by (nonlinear_arith);
    } else {
        lemma_deadlines_do_not_drift(start, period, (n - 1) as nat);
        let m = (n - 1) as nat;
        assert(m * period + period == (m + 1) * period) by (nonlinear_arith);
        assert(m + 1 == n);
    }
}

/// A periodic notifier: one notifier handle, a shared period, an absolute
/// deadline, and the lifecycle state of its loop.
pub struct Notifier {
    handle: NotifierHandle,
    state: NotifierState,
    period: u64,
    deadline: u64,
    history: Ghost<Seq<NotifierEvent>>,
    base: Ghost<u64>,
    ticks: Ghost<nat>,
}

impl Notifier {
    /// The lifecycle state of the loop.
    pub closed spec fn state_spec(&self) -> NotifierState {
        self.state
    }

    /// The current period, read by the loop on its next iteration.
    pub closed spec fn period_spec(&self) -> u64 {
        self.period
    }

    /// The absolute deadline of the most recently armed alarm.
    pub closed spec fn deadline_spec(&self) -> u64 {
        self.deadline
    }

    /// The wire value of the owned notifier handle.
    pub closed spec fn handle_value(&self) -> i32 {
        self.handle.0
    }

    /// Every lifecycle event of this notifier so far, in order.
    pub closed spec fn history(&self) -> Seq<NotifierEvent> {
        self.history@
    }

    /// The deadline the current period was last rebased at: the clock value
    /// at start, or the deadline pending when the period was last changed.
    pub closed spec fn base_spec(&self) -> u64 {
        self.base@
    }

    /// How many ticks have run since the period was last rebased.
    pub closed spec fn ticks_spec(&self) -> nat {
        self.ticks@
    }

    /// The notifier's bookkeeping is consistent: its lifecycle history is a
    /// valid trace ending in its current state, and its deadline sits
    /// exactly `ticks` periods past the last rebase.
    pub closed spec fn wf(&self) -> bool {
        &&& lifecycle_run(NotifierState::Created, self.history@) == Some(self.state)
        &&& self.deadline as int == self.base@ as int + self.ticks@ * (self.period as int)
    }

    /// Start a notifier against the simulated native library: allocate the
    /// notifier handle through the calling protocol, then read the hardware
    /// clock as the base deadline and enter the running state. A runtime
    /// that is not ready performs no native call; a failed allocation
    /// leaves no handle and no loop.
    pub fn start_sim(period: u64, gate: &ReadinessGate, native: &mut MockHal) -> (r: Result<
        Notifier,
        HalError,
    >)
        requires
            old(native).wf(),
            old(native).calls() + 2 <= u64::MAX,
            old(native).next() < i32::MAX,
        ensures
            final(native).wf(),
            !gate.is_set() ==> r == Err::<Notifier, HalError>(HalError::NotInitialized)
                && *final(native) == *old(native),
            gate.is_set() && old(native).scripted() == 0 ==> {
                &&& r matches Ok(n)
                &&& n.wf()
                &&& n.state_spec() is Running
                &&& n.period_spec() == period
                &&& n.deadline_spec() == old(native).time()
                &&& n.base_spec() == old(native).time()
                &&& n.ticks_spec() == 0
                &&& n.handle_value() == old(native).next()
                &&& final(native).live() == old(native).live().push(n.handle_value())
                &&& final(native).live().contains(n.handle_value())
                &&& final(native).next() == old(native).next() + 1
                &&& final(native).calls() == old(native).calls() + 2
                &&& final(native).time() == old(native).time()
                &&& final(native).freed() == old(native).freed()
                &&& final(native).faulted() == old(native).faulted()
                &&& final(native).scripted() == old(native).scripted()
                &&& final(native).alarm() == old(native).alarm()
            },
            gate.is_set() && old(native).scripted() != 0 ==> {
                &&& r == Err::<Notifier, HalError>(
                    HalError::Hal(translate_status(old(native).scripted())),
                )
                &&& final(native).live() == old(native).live()
                &&& final(native).freed() == old(native).freed()
                &&& final(native).calls() == old(native).calls() + 1
                &&& final(native).faulted() == old(native).faulted()
                &&& final(native).scripted() == old(native).scripted()
                &&& final(native).time() == old(native).time()
                &&& final(native).next() == old(native).next()
            },
    {
        let mut cell = match begin_call(gate) {
            Ok(c) => c,
            Err(e) => {
                return Err(e);
            },
        };
        let raw = native.allocate(&mut cell);
        if let Err(e) = finish_call(cell) {
            return Err(e);
        }
        let mut time_cell = match begin_call(gate) {
            Ok(c) => c,
            Err(e) => {
                return Err(e);
            },
        };
        let now = native.read_time(&mut time_cell);
        let ghost started: Seq<NotifierEvent> = seq![NotifierEvent::Start];
        let n = Notifier {
            handle: NotifierHandle(raw),
            state: NotifierState::Running,
            period,
            deadline: now,
            history: Ghost(started),
            base: Ghost(now),
            ticks: Ghost(0nat),
        };
        proof {
            assert(native.live()[old(native).live().len() as int] == raw);
            assert(started.drop_first() =~= Seq::<NotifierEvent>::empty());
            assert(lifecycle_run(NotifierState::Running, started.drop_first()) == Some(
                NotifierState::Running,
            ));
            assert(started[0] == NotifierEvent::Start);
            assert(lifecycle_run(NotifierState::Created, started) == Some(NotifierState::Running));
        }
        Ok(n)
    }

    /// One iteration of the running loop, up to the point where the user
    /// callback would be invoked: advance the deadline by the current
    /// period — the previous deadline plus the period, never the clock plus
    /// the period — then arm the alarm for that absolute deadline and block
    /// until the clock reaches it.
    pub fn tick_sim(&mut self, gate: &ReadinessGate, native: &mut MockHal)
        requires
            gate.is_set(),
            old(self).wf(),
            old(self).state_spec() is Running,
            old(self).deadline_spec() + old(self).period_spec() <= u64::MAX,
            old(native).wf(),
            old(native).calls() + 2 <= u64::MAX,
            old(native).scripted() == 0,
            old(native).live().contains(old(self).handle_value()),
        ensures
            final(self).wf(),
            final(self).state_spec() is Running,
            final(self).period_spec() == old(self).period_spec(),
            final(self).handle_value() == old(self).handle_value(),
            final(self).history() == old(self).history(),
            final(self).base_spec() == old(self).base_spec(),
            final(self).ticks_spec() == old(self).ticks_spec() + 1,
            final(self).deadline_spec() == old(self).deadline_spec() + old(self).period_spec(),
            final(native).wf(),
            final(native).calls() == old(native).calls() + 2,
            final(native).time() == (if old(self).deadline_spec() + old(self).period_spec()
                > old(native).time() {
                old(self).deadline_spec() + old(self).period_spec()
            } else {
                old(native).time() as int
            }),
            final(native).alarm() is None,
            final(native).live() == old(native).live(),
            final(native).freed() == old(native).freed(),
            final(native).faulted() == old(native).faulted(),
            final(native).scripted() == old(native).scripted(),
            final(native).next() == old(native).next(),
    {
        proof {
            let t = self.ticks@ as int;
            let p = self.period as int;
            assert((t + 1) * p == t * p + p) by (nonlinear_arith);
        }
        self.deadline = self.deadline + self.period;
        self.ticks = Ghost(self.ticks@ + 1);
        let mut arm_cell = begin_call(gate).unwrap();
        native.arm_alarm(self.handle.0, self.deadline, &mut arm_cell);
        finish_call(arm_cell).unwrap();
        let mut wait_cell = begin_call(gate).unwrap();
        native.wait_alarm(self.handle.0, &mut wait_cell);
        finish_call(wait_cell).unwrap();
    }

    /// Update the shared period. The loop reads it on its next iteration:
    /// the deadline already armed is not shortened or extended, so the new
    /// period takes effect on the alarm after the pending one.
    pub fn set_period(&mut self, period: u64)
        requires
            old(self).wf(),
        ensures
            final(self).wf(),
            final(self).period_spec() == period,
            final(self).state_spec() == old(self).state_spec(),
            final(self).deadline_spec() == old(self).deadline_spec(),
            final(self).handle_value() == old(self).handle_value(),
            final(self).history() == old(self).history(),
            final(self).base_spec() == old(self).deadline_spec(),
            final(self).ticks_spec() == 0,
    {
        self.period = period;
        self.base = Ghost(self.deadline);
        self.ticks = Ghost(0nat);
    }

    /// Ask the native library to abort a pending wait without stopping the
    /// loop, through the calling protocol.
    pub fn cancel_sim(&self, gate: &ReadinessGate, native: &mut MockHal) -> (r: Result<
        (),
        HalError,
    >)
        requires
            old(native).wf(),
            old(native).calls() < u64::MAX,
            old(native).live().contains(self.handle_value()),
        ensures
            final(native).wf(),
            !gate.is_set() ==> r == Err::<(), HalError>(HalError::NotInitialized) && *final(native)
                == *old(native),
            gate.is_set() ==> {
                &&& final(native).calls() == old(native).calls() + 1
                &&& final(native).faulted() == old(native).faulted()
                &&& final(native).live() == old(native).live()
                &&& final(native).freed() == old(native).freed()
                &&& final(native).time() == old(native).time()
                &&& old(native).scripted() == 0 ==> r is Ok && final(native).alarm() is None
                &&& old(native).scripted() != 0 ==> r == Err::<(), HalError>(
                    HalError::Hal(translate_status(old(native).scripted())),
                )
            },
    {
        let mut cell = match begin_call(gate) {
            Ok(c) => c,
            Err(e) => {
                return Err(e);
            },
        };
        native.cancel_alarm(self.handle.0, &mut cell);
        finish_call(cell)
    }

    /// First step of shutdown: ask the loop to stop. The native stop entry
    /// point reports no status; it disarms the alarm so that a blocked wait
    /// returns promptly.
    pub fn begin_stop(&mut self, native: &mut MockHal)
        requires
            old(self).wf(),
            old(self).state_spec() is Running,
            old(native).wf(),
            old(native).calls() < u64::MAX,
            old(native).live().contains(old(self).handle_value()),
        ensures
            final(self).wf(),
            final(self).state_spec() is Stopping,
            final(self).history() == old(self).history().push(NotifierEvent::Stop),
            final(self).handle_value() == old(self).handle_value(),
            final(self).period_spec() == old(self).period_spec(),
            final(self).deadline_spec() == old(self).deadline_spec(),
            final(native).wf(),
            final(native).calls() == old(native).calls() + 1,
            final(native).alarm() is None,
            final(native).live() == old(native).live(),
            final(native).freed() == old(native).freed(),
            final(native).faulted() == old(native).faulted(),
            final(native).scripted() == old(native).scripted(),
            final(native).time() == old(native).time(),
            final(native).next() == old(native).next(),
    {
        native.stop_notifier(self.handle.0);
        proof {
            lemma_lifecycle_run_push(NotifierState::Created, self.history@, NotifierEvent::Stop);
        }
        self.state = NotifierState::Stopping;
        self.history = Ghost(self.history@.push(NotifierEvent::Stop));
    }

    /// Second step of shutdown: the owner has joined the loop's thread and
    /// observed it exit. Only bookkeeping; no native call. A panic of the
    /// loop is discarded by the owner, since a panicked loop has equally
    /// stopped touching the handle.
    pub fn confirm_joined(&mut self)
        requires
            old(self).wf(),
            old(self).state_spec() is Stopping,
        ensures
            final(self).wf(),
            final(self).state_spec() is Joined,
            final(self).history() == old(self).history().push(NotifierEvent::Join),
            final(self).handle_value() == old(self).handle_value(),
            final(self).period_spec() == old(self).period_spec(),
            final(self).deadline_spec() == old(self).deadline_spec(),
    {
        proof {
            lemma_lifecycle_run_push(NotifierState::Created, self.history@, NotifierEvent::Join);
        }
        self.state = NotifierState::Joined;
        self.history = Ghost(self.history@.push(NotifierEvent::Join));
    }

    /// Last step of shutdown: release the handle. Only reachable once the
    /// loop has exited, so the native library can never see a free while a
    /// wait on the same handle might still be blocked. The native free
    /// reports no status.
    pub fn free_sim(&mut self, native: &mut MockHal)
        requires
            old(self).wf(),
            old(self).state_spec() is Joined,
            old(native).wf(),
            old(native).calls() < u64::MAX,
            old(native).live().contains(old(self).handle_value()),
        ensures
            final(self).wf(),
            final(self).state_spec() is Freed,
            final(self).history() == old(self).history().push(NotifierEvent::Free),
            final(self).handle_value() == old(self).handle_value(),
            final(native).wf(),
            final(native).calls() == old(native).calls() + 1,
            final(native).freed() == old(native).freed().push(old(self).handle_value()),
            !final(native).live().contains(old(self).handle_value()),
            final(native).faulted() == old(native).faulted(),
            final(native).scripted() == old(native).scripted(),
            final(native).time() == old(native).time(),
            final(native).next() == old(native).next(),
    {
        native.release(self.handle.0);
        proof {
            lemma_lifecycle_run_push(NotifierState::Created, self.history@, NotifierEvent::Free);
        }
        self.state = NotifierState::Freed;
        self.history = Ghost(self.history@.push(NotifierEvent::Free));
    }

    /// The whole shutdown sequence a drop of the owning object performs, in
    /// the one order that is safe: stop the loop, join it, and only then
    /// free the handle.
    pub fn shutdown_sim(&mut self, native: &mut MockHal)
        requires
            old(self).wf(),
            old(self).state_spec() is Running,
            old(native).wf(),
            old(native).calls() + 2 <= u64::MAX,
            old(native).live().contains(old(self).handle_value()),
        ensures
            final(self).wf(),
            final(self).state_spec() is Freed,
            final(self).history() == old(self).history().push(NotifierEvent::Stop).push(
                NotifierEvent::Join,
            ).push(NotifierEvent::Free),
            final(self).handle_value() == old(self).handle_value(),
            final(native).wf(),
            final(native).calls() == old(native).calls() + 2,
            final(native).freed() == old(native).freed().push(old(self).handle_value()),
            !final(native).live().contains(old(self).handle_value()),
            final(native).faulted() == old(native).faulted(),
            final(native).scripted() == old(native).scripted(),
            final(native).time() == old(native).time(),
            final(native).next() == old(native).next(),
    {
        self.begin_stop(native);
        self.confirm_joined();
        self.free_sim(native);
    }

    /// The current period.
    pub fn period(&self) -> (r: u64)
        ensures
            r == self.period_spec(),
    {
        self.period
    }

    /// The absolute deadline of the most recently armed alarm.
    pub fn deadline(&self) -> (r: u64)
        ensures
            r == self.deadline_spec(),
    {
        self.deadline
    }

    /// Whether the loop is in the running state.
    pub fn is_running(&self) -> (r: bool)
        ensures
            r == (self.state_spec() is Running),
    {
        match self.state {
            NotifierState::Running => true,
            _ => false,
        }
    }

    /// The typed notifier handle.
    pub fn port(&self) -> (r: NotifierHandle)
        ensures
            r.0 == self.handle_value(),
    {
        self.handle
    }
}

/// A well-formed notifier's deadline sits exactly `ticks` periods past the
/// last rebase: with a constant period, after n ticks the deadline is the
/// base plus n times the period, so elapsed hardware time across n ticks is
/// n periods and jitter does not accumulate.
pub proof fn lemma_notifier_does_not_drift(n: &Notifier)
    requires
        n.wf(),
    ensures
        n.deadline_spec() as int == n.base_spec() as int + n.ticks_spec() * (
        n.period_spec() as int),
        n.deadline_spec() as int == nth_deadline(
            n.base_spec() as int,
            n.period_spec() as int,
            n.ticks_spec(),
        ),
{
    lemma_deadlines_do_not_drift(n.base_spec() as int, n.period_spec() as int, n.ticks_spec());
}

/// Every notifier's lifecycle history is a valid trace of the lifecycle
/// state machine ending in its current state.
pub proof fn lemma_notifier_history_is_valid(n: &Notifier)
    requires
        n.wf(),
    ensures
        lifecycle_run(NotifierState::Created, n.history()) == Some(n.state_spec()),
{
}

/// A notifier's handle is only ever freed strictly after its loop was
/// observed to exit, and the loop only exits after shutdown was requested:
/// the free-while-waiting undefined behavior of the native library is
/// unreachable.
pub proof fn lemma_notifier_frees_only_after_join(n: &Notifier, i: int)
    requires
        n.wf(),
        0 <= i < n.history().len(),
        n.history()[i] is Free,
    ensures
        exists|j: int| 0 <= j < i && n.history()[j] is Join,
        forall|j: int|
            0 <= j < n.history().len() && n.history()[j] is Join ==> exists|k: int|
                0 <= k < j && n.history()[k] is Stop,
{
    lemma_free_strictly_after_join(n.history(), i);
    assert forall|j: int|
        0 <= j < n.history().len() && n.history()[j] is Join implies exists|k: int|
        0 <= k < j && n.history()[k] is Stop by {
        lemma_join_strictly_after_stop(n.history(), j);
    }
}

} // verus!
