//! A deterministic, fully verified stand-in for the native hardware library.
//!
//! The native library cannot run off the robot, so the simulation paths and
//! the tests drive the core against this double instead. It follows the
//! native calling convention exactly: every entry point counts as one native
//! call, status-reporting entry points write the scripted status code into
//! the caller's cell, handle-allocating entry points hand out fresh handles,
//! and the free entry points report nothing. The double records a fault
//! whenever it is driven in a way that is undefined behavior in the native
//! library, such as freeing a handle that is not live.

use vstd::prelude::*;

use crate::gate::StatusCell;

verus! {

/// The in-process double of the native library.
pub struct MockHal {
    next_handle: i32,
    live_handles: Vec<i32>,
    freed_handles: Vec<i32>,
    call_tally: u64,
    scripted_status: i32,
    clock: u64,
    alarm_deadline: Option<u64>,
    fault_flag: bool,
}

/// Pushing a value a sequence does not hold keeps the sequence free of
/// duplicates.
proof fn lemma_push_keeps_no_duplicates(s: Seq<i32>, e: i32)
    requires
        s.no_duplicates(),
        !s.contains(e),
    ensures
        s.push(e).no_duplicates(),
{
    assert forall|p: int, q: int|
        0 <= p < s.push(e).len() && 0 <= q < s.push(e).len() && p != q implies s.push(e)[p]
        != s.push(e)[q] by {
        if p < s.len() && q < s.len() {
        } else if p == s.len() {
            assert(s.contains(s[q]));
        } else {
            assert(s.contains(s[p]));
        }
    }
}

/// What a pushed sequence holds: the old elements and the new one.
proof fn lemma_push_contains(s: Seq<i32>, e: i32, y: i32)
    ensures
        s.push(e).contains(y) <==> (s.contains(y) || y == e),
{
    if s.push(e).contains(y) {
        let j = choose|j: int| 0 <= j < s.push(e).len() && s.push(e)[j] == y;
        if j < s.len() {
            assert(s[j] == y);
        }
    }
    if s.contains(y) {
        let j = choose|j: int| 0 <= j < s.len() && s[j] == y;
        assert(s.push(e)[j] == y);
    }
    if y == e {
        assert(s.push(e)[s.len() as int] == y);
    }
}

/// Remove the occurrence of `x` from a duplicate-free vector, reporting
/// whether it was there.
fn take_out(v: &mut Vec<i32>, x: i32) -> (found: bool)
    requires
        old(v)@.no_duplicates(),
    ensures
        found == old(v)@.contains(x),
        final(v)@.no_duplicates(),
        !final(v)@.contains(x),
        forall|y: i32| y != x ==> (final(v)@.contains(y) == old(v)@.contains(y)),
        forall|y: i32| final(v)@.contains(y) ==> old(v)@.contains(y),
        found ==> final(v)@.len() == old(v)@.len() - 1,
        !found ==> final(v)@ == old(v)@,
{
    let n = v.len();
    let mut out: Vec<i32> = Vec::new();
    let mut found = false;
    let mut i: usize = 0;
    while i < n
        invariant
            n == v@.len(),
            v@ == old(v)@,
            v@.no_duplicates(),
            0 <= i <= n,
            out@.no_duplicates(),
            !out@.contains(x),
            forall|y: i32| y != x ==> (out@.contains(y) == v@.subrange(0, i as int).contains(y)),
            forall|y: i32| out@.contains(y) ==> v@.subrange(0, i as int).contains(y),
            found == v@.subrange(0, i as int).contains(x),
            out@.len() == i - (if found {
                1int
            } else {
                0int
            }),
            !found ==> out@ == v@.subrange(0, i as int),
        decreases n - i,
    {
        let e = v[i];
        let ghost prefix = v@.subrange(0, i as int);
        proof {
            assert(v@.subrange(0, i as int + 1) =~= prefix.push(e));
            assert forall|y: i32| #[trigger] prefix.push(e).contains(y) == (prefix.contains(y) || y
                == e) by {
                lemma_push_contains(prefix, e, y);
            }
        }
        if e == x {
            found = true;
        } else {
            proof {
                if out@.contains(e) {
                    let j = choose|j: int| 0 <= j < prefix.len() && prefix[j] == e;
                    assert(v@[j] == e);
                    assert(v@[i as int] == e);
                }
                lemma_push_keeps_no_duplicates(out@, e);
                assert forall|y: i32| #[trigger] out@.push(e).contains(y) == (out@.contains(y) || y
                    == e) by {
                    lemma_push_contains(out@, e, y);
                }
            }
            out.push(e);
        }
        i = i + 1;
    }
    proof {
        assert(v@.subrange(0, n as int) =~= v@);
        if found {
            assert(v@.contains(x));
        }
    }
    *v = out;
    found
}

impl MockHal {
    /// Handles the double has handed out and not yet been asked to free.
    pub closed spec fn live(&self) -> Seq<i32> {
        self.live_handles@
    }

    /// Handles the double has freed, in order of freeing.
    pub closed spec fn freed(&self) -> Seq<i32> {
        self.freed_handles@
    }

    /// How many native entry points have been invoked.
    pub closed spec fn calls(&self) -> u64 {
        self.call_tally
    }

    /// The status code the next status-reporting entry point writes.
    pub closed spec fn scripted(&self) -> i32 {
        self.scripted_status
    }

    /// The hardware real-time clock, in its native time unit.
    pub closed spec fn time(&self) -> u64 {
        self.clock
    }

    /// The pending alarm deadline, if one is armed.
    pub closed spec fn alarm(&self) -> Option<u64> {
        self.alarm_deadline
    }

    /// Whether the double was driven in a way that is undefined behavior in
    /// the native library.
    pub closed spec fn faulted(&self) -> bool {
        self.fault_flag
    }

    /// The handle value the next successful allocation returns.
    pub closed spec fn next(&self) -> i32 {
        self.next_handle
    }

    /// Handle bookkeeping is consistent: every handle the double ever handed
    /// out is positive and below the next fresh value, no handle occurs
    /// twice on either list, and no handle is both live and freed.
    pub closed spec fn wf(&self) -> bool {
        &&& 1 <= self.next_handle
        &&& self.live_handles@.no_duplicates()
        &&& self.freed_handles@.no_duplicates()
        &&& forall|i: int|
            0 <= i < self.live_handles@.len() ==> 0 < #[trigger] self.live_handles@[i]
                < self.next_handle
        &&& forall|i: int|
            0 <= i < self.freed_handles@.len() ==> 0 < #[trigger] self.freed_handles@[i]
                < self.next_handle
        &&& forall|h: i32|
            !(#[trigger] self.live_handles@.contains(h) && self.freed_handles@.contains(h))
    }

    /// A fresh double: nothing allocated, nothing invoked, clock at zero,
    /// every call scripted to succeed.
    pub fn new() -> (r: MockHal)
        ensures
            r.wf(),
            r.live() == Seq::<i32>::empty(),
            r.freed() == Seq::<i32>::empty(),
            r.calls() == 0,
            r.scripted() == 0,
            r.time() == 0,
            r.alarm() is None,
            !r.faulted(),
            r.next() == 1,
    {
        MockHal {
            next_handle: 1,
            live_handles: Vec::new(),
            freed_handles: Vec::new(),
            call_tally: 0,
            scripted_status: 0,
            clock: 0,
            alarm_deadline: None,
            fault_flag: false,
        }
    }

    /// Script the status code every following status-reporting entry point
    /// writes, until scripted again. Not itself a native call.
    pub fn script_status(&mut self, code: i32)
        ensures
            final(self).scripted() == code,
            final(self).live() == old(self).live(),
            final(self).freed() == old(self).freed(),
            final(self).calls() == old(self).calls(),
            final(self).time() == old(self).time(),
            final(self).alarm() == old(self).alarm(),
            final(self).faulted() == old(self).faulted(),
            final(self).next() == old(self).next(),
            old(self).wf() ==> final(self).wf(),
    {
        self.scripted_status = code;
    }

    /// Move the hardware clock forward. Not itself a native call.
    pub fn advance_clock(&mut self, amount: u64)
        requires
            old(self).time() + amount <= u64::MAX,
        ensures
            final(self).time() == old(self).time() + amount,
            final(self).live() == old(self).live(),
            final(self).freed() == old(self).freed(),
            final(self).calls() == old(self).calls(),
            final(self).scripted() == old(self).scripted(),
            final(self).alarm() == old(self).alarm(),
            final(self).faulted() == old(self).faulted(),
            final(self).next() == old(self).next(),
            old(self).wf() ==> final(self).wf(),
    {
        self.clock = self.clock + amount;
    }

    /// A status-reporting native entry point with no other observable
    /// effect: counts one call and writes the scripted status.
    pub fn invoke(&mut self, cell: &mut StatusCell)
        requires
            old(self).calls() < u64::MAX,
        ensures
            final(self).calls() == old(self).calls() + 1,
            final(cell).val() == old(self).scripted(),
            final(self).live() == old(self).live(),
            final(self).freed() == old(self).freed(),
            final(self).scripted() == old(self).scripted(),
            final(self).time() == old(self).time(),
            final(self).alarm() == old(self).alarm(),
            final(self).faulted() == old(self).faulted(),
            final(self).next() == old(self).next(),
            old(self).wf() ==> final(self).wf(),
    {
        self.call_tally = self.call_tally + 1;
        cell.write(self.scripted_status);
    }

    /// A handle-allocating native entry point. On a scripted success it
    /// hands out a fresh handle, never one handed out before; on a scripted
    /// failure it writes the status, hands out nothing, and leaves no
    /// handle to free.
    pub fn allocate(&mut self, cell: &mut StatusCell) -> (h: i32)
        requires
            old(self).wf(),
            old(self).calls() < u64::MAX,
            old(self).next() < i32::MAX,
        ensures
            final(self).wf(),
            final(self).calls() == old(self).calls() + 1,
            final(cell).val() == old(self).scripted(),
            old(self).scripted() == 0 ==> {
                &&& h == old(self).next()
                &&& final(self).live() == old(self).live().push(h)
                &&& !old(self).live().contains(h)
                &&& !old(self).freed().contains(h)
                &&& final(self).next() == old(self).next() + 1
            },
            old(self).scripted() != 0 ==> {
                &&& h == 0
                &&& final(self).live() == old(self).live()
                &&& final(self).next() == old(self).next()
            },
            final(self).freed() == old(self).freed(),
            final(self).scripted() == old(self).scripted(),
            final(self).time() == old(self).time(),
            final(self).alarm() == old(self).alarm(),
            final(self).faulted() == old(self).faulted(),
    {
        self.call_tally = self.call_tally + 1;
        cell.write(self.scripted_status);
        if self.scripted_status == 0 {
            let h = self.next_handle;
            proof {
                assert(!self.live_handles@.contains(h)) by {
                    if self.live_handles@.contains(h) {
                        let j = choose|j: int|
                            0 <= j < self.live_handles@.len() && self.live_handles@[j] == h;
                        assert(self.live_handles@[j] < h);
                    }
                }
                assert(!self.freed_handles@.contains(h)) by {
                    if self.freed_handles@.contains(h) {
                        let j = choose|j: int|
                            0 <= j < self.freed_handles@.len() && self.freed_handles@[j] == h;
                        assert(self.freed_handles@[j] < h);
                    }
                }
                lemma_push_keeps_no_duplicates(self.live_handles@, h);
                assert forall|y: i32| #[trigger] self.live_handles@.push(h).contains(y) == (
                self.live_handles@.contains(y) || y == h) by {
                    lemma_push_contains(self.live_handles@, h, y);
                }
            }
            self.live_handles.push(h);
            self.next_handle = self.next_handle + 1;
            proof {
                assert forall|i: int| 0 <= i < self.live_handles@.len() implies 0
                    < #[trigger] self.live_handles@[i] < self.next_handle by {
                    if i < self.live_handles@.len() - 1 {
                        assert(self.live_handles@[i] == old(self).live_handles@[i]);
                    }
                }
            }
            h
        } else {
            0
        }
    }

    /// A handle-freeing native entry point. Native frees report no status.
    /// Freeing a live handle retires it; freeing anything else is undefined
    /// behavior in the native library, so the double records a fault.
    pub fn release(&mut self, h: i32)
        requires
            old(self).wf(),
            old(self).calls() < u64::MAX,
        ensures
            final(self).wf(),
            final(self).calls() == old(self).calls() + 1,
            old(self).live().contains(h) ==> {
                &&& final(self).freed() == old(self).freed().push(h)
                &&& !final(self).live().contains(h)
                &&& forall|y: i32|
                    y != h ==> (final(self).live().contains(y) == old(self).live().contains(y))
                &&& final(self).faulted() == old(self).faulted()
            },
            !old(self).live().contains(h) ==> {
                &&& final(self).freed() == old(self).freed()
                &&& final(self).live() == old(self).live()
                &&& final(self).faulted()
            },
            final(self).scripted() == old(self).scripted(),
            final(self).time() == old(self).time(),
            final(self).alarm() == old(self).alarm(),
            final(self).next() == old(self).next(),
    {
        self.call_tally = self.call_tally + 1;
        let found = take_out(&mut self.live_handles, h);
        if found {
            proof {
                assert forall|i: int| 0 <= i < self.live_handles@.len() implies 0
                    < #[trigger] self.live_handles@[i] < self.next_handle by {
                    assert(self.live_handles@.contains(self.live_handles@[i]));
                    assert(old(self).live_handles@.contains(self.live_handles@[i]));
                    let j = choose|j: int|
                        0 <= j < old(self).live_handles@.len() && old(self).live_handles@[j]
                            == self.live_handles@[i];
                }
                assert(old(self).live_handles@.contains(h));
                assert(0 < h < self.next_handle) by {
                    let j = choose|j: int|
                        0 <= j < old(self).live_handles@.len() && old(self).live_handles@[j] == h;
                }
                assert(!self.freed_handles@.contains(h));
                lemma_push_keeps_no_duplicates(self.freed_handles@, h);
                assert forall|y: i32| #[trigger] self.freed_handles@.push(h).contains(y) == (
                self.freed_handles@.contains(y) || y == h) by {
                    lemma_push_contains(self.freed_handles@, h, y);
                }
            }
            self.freed_handles.push(h);
            proof {
                assert forall|i: int| 0 <= i < self.freed_handles@.len() implies 0
                    < #[trigger] self.freed_handles@[i] < self.next_handle by {
                    if i < self.freed_handles@.len() - 1 {
                        assert(self.freed_handles@[i] == old(self).freed_handles@[i]);
                    }
                }
            }
        } else {
            self.fault_flag = true;
        }
    }

    /// The native entry point that reads the hardware real-time clock: one
    /// call, the scripted status, and the clock value.
    pub fn read_time(&mut self, cell: &mut StatusCell) -> (t: u64)
        requires
            old(self).calls() < u64::MAX,
        ensures
            t == old(self).time(),
            final(self).calls() == old(self).calls() + 1,
            final(cell).val() == old(self).scripted(),
            final(self).live() == old(self).live(),
            final(self).freed() == old(self).freed(),
            final(self).scripted() == old(self).scripted(),
            final(self).time() == old(self).time(),
            final(self).alarm() == old(self).alarm(),
            final(self).faulted() == old(self).faulted(),
            final(self).next() == old(self).next(),
            old(self).wf() ==> final(self).wf(),
    {
        self.call_tally = self.call_tally + 1;
        cell.write(self.scripted_status);
        self.clock
    }

    /// Arm the alarm of a notifier handle for an absolute deadline. Arming
    /// through a handle that is not live is undefined behavior and recorded
    /// as a fault.
    pub fn arm_alarm(&mut self, h: i32, deadline: u64, cell: &mut StatusCell)
        requires
            old(self).wf(),
            old(self).calls() < u64::MAX,
        ensures
            final(self).wf(),
            final(self).calls() == old(self).calls() + 1,
            final(cell).val() == old(self).scripted(),
            old(self).live().contains(h) && old(self).scripted() == 0 ==> final(self).alarm()
                == Some(deadline) && final(self).faulted() == old(self).faulted(),
            old(self).live().contains(h) && old(self).scripted() != 0 ==> final(self).alarm()
                == old(self).alarm() && final(self).faulted() == old(self).faulted(),
            !old(self).live().contains(h) ==> final(self).faulted(),
            final(self).live() == old(self).live(),
            final(self).freed() == old(self).freed(),
            final(self).scripted() == old(self).scripted(),
            final(self).time() == old(self).time(),
            final(self).next() == old(self).next(),
    {
        self.call_tally = self.call_tally + 1;
        cell.write(self.scripted_status);
        let live = self.is_live(h);
        if !live {
            self.fault_flag = true;
        } else if self.scripted_status == 0 {
            self.alarm_deadline = Some(deadline);
        }
    }

    /// Block on the armed alarm of a notifier handle: the clock jumps to the
    /// alarm deadline if it has not passed yet, and the alarm is consumed.
    /// Waiting through a handle that is not live is undefined behavior and
    /// recorded as a fault.
    pub fn wait_alarm(&mut self, h: i32, cell: &mut StatusCell)
        requires
            old(self).wf(),
            old(self).calls() < u64::MAX,
            old(self).alarm() is Some,
        ensures
            final(self).wf(),
            final(self).calls() == old(self).calls() + 1,
            final(cell).val() == old(self).scripted(),
            old(self).live().contains(h) && old(self).scripted() == 0 ==> {
                &&& final(self).time() == (if old(self).alarm()->Some_0 > old(self).time() {
                    old(self).alarm()->Some_0
                } else {
                    old(self).time()
                })
                &&& final(self).alarm() is None
                &&& final(self).faulted() == old(self).faulted()
            },
            old(self).live().contains(h) && old(self).scripted() != 0 ==> {
                &&& final(self).time() == old(self).time()
                &&& final(self).alarm() == old(self).alarm()
                &&& final(self).faulted() == old(self).faulted()
            },
            !old(self).live().contains(h) ==> final(self).faulted(),
            final(self).live() == old(self).live(),
            final(self).freed() == old(self).freed(),
            final(self).scripted() == old(self).scripted(),
            final(self).next() == old(self).next(),
    {
        self.call_tally = self.call_tally + 1;
        cell.write(self.scripted_status);
        let live = self.is_live(h);
        if !live {
            self.fault_flag = true;
        } else if self.scripted_status == 0 {
            match self.alarm_deadline {
                Some(deadline) => {
                    if deadline > self.clock {
                        self.clock = deadline;
                    }
                    self.alarm_deadline = None;
                },
                None => {},
            }
        }
    }

    /// Abort a pending alarm without stopping anything else. Cancelling
    /// through a handle that is not live is undefined behavior and recorded
    /// as a fault.
    pub fn cancel_alarm(&mut self, h: i32, cell: &mut StatusCell)
        requires
            old(self).wf(),
            old(self).calls() < u64::MAX,
        ensures
            final(self).wf(),
            final(self).calls() == old(self).calls() + 1,
            final(cell).val() == old(self).scripted(),
            old(self).live().contains(h) && old(self).scripted() == 0 ==> final(self).alarm()
                is None && final(self).faulted() == old(self).faulted(),
            old(self).live().contains(h) && old(self).scripted() != 0 ==> final(self).alarm()
                == old(self).alarm() && final(self).faulted() == old(self).faulted(),
            !old(self).live().contains(h) ==> final(self).faulted(),
            final(self).live() == old(self).live(),
            final(self).freed() == old(self).freed(),
            final(self).scripted() == old(self).scripted(),
            final(self).time() == old(self).time(),
            final(self).next() == old(self).next(),
    {
        self.call_tally = self.call_tally + 1;
        cell.write(self.scripted_status);
        let live = self.is_live(h);
        if !live {
            self.fault_flag = true;
        } else if self.scripted_status == 0 {
            self.alarm_deadline = None;
        }
    }

    /// The native stop entry point of the notifier: it unblocks a pending
    /// wait by disarming the alarm, and reports no status.
    pub fn stop_notifier(&mut self, h: i32)
        requires
            old(self).wf(),
            old(self).calls() < u64::MAX,
        ensures
            final(self).wf(),
            final(self).calls() == old(self).calls() + 1,
            final(self).alarm() is None,
            old(self).live().contains(h) ==> final(self).faulted() == old(self).faulted(),
            !old(self).live().contains(h) ==> final(self).faulted(),
            final(self).live() == old(self).live(),
            final(self).freed() == old(self).freed(),
            final(self).scripted() == old(self).scripted(),
            final(self).time() == old(self).time(),
            final(self).next() == old(self).next(),
    {
        self.call_tally = self.call_tally + 1;
        let live = self.is_live(h);
        if !live {
            self.fault_flag = true;
        }
        self.alarm_deadline = None;
    }

    /// Whether a handle is currently live. Bookkeeping only, not a native
    /// call.
    pub fn is_live(&self, h: i32) -> (r: bool)
        ensures
            r == self.live().contains(h),
    {
        let mut i: usize = 0;
        let v = &self.live_handles;
        while i < v.len()
            invariant
                0 <= i <= v@.len(),
                forall|k: int| 0 <= k < i ==> v@[k] != h,
                v@ == self.live(),
            decreases v@.len() - i,
        {
            if v[i] == h {
                return true;
            }
            i = i + 1;
        }
        false
    }

    /// Whether a handle has been freed. Bookkeeping only, not a native call.
    pub fn was_freed(&self, h: i32) -> (r: bool)
        ensures
            r == self.freed().contains(h),
    {
        let mut i: usize = 0;
        let v = &self.freed_handles;
        while i < v.len()
            invariant
                0 <= i <= v@.len(),
                forall|k: int| 0 <= k < i ==> v@[k] != h,
                v@ == self.freed(),
            decreases v@.len() - i,
        {
            if v[i] == h {
                return true;
            }
            i = i + 1;
        }
        false
    }

    /// How many handles are live. Bookkeeping only, not a native call.
    pub fn live_count(&self) -> (r: usize)
        ensures
            r == self.live().len(),
    {
        self.live_handles.len()
    }

    /// Whether an alarm is armed. Bookkeeping only, not a native call.
    pub fn is_armed(&self) -> (r: bool)
        ensures
            r == (self.alarm() is Some),
    {
        match self.alarm_deadline {
            Some(_) => true,
            None => false,
        }
    }

    /// The status code currently scripted. Bookkeeping only.
    pub fn scripted_code(&self) -> (r: i32)
        ensures
            r == self.scripted(),
    {
        self.scripted_status
    }

    /// How many native entry points have been invoked. Bookkeeping only.
    pub fn call_count(&self) -> (r: u64)
        ensures
            r == self.calls(),
    {
        self.call_tally
    }

    /// Whether undefined behavior was recorded. Bookkeeping only.
    pub fn has_fault(&self) -> (r: bool)
        ensures
            r == self.faulted(),
    {
        self.fault_flag
    }

    /// The hardware clock value. Bookkeeping only.
    pub fn now(&self) -> (r: u64)
        ensures
            r == self.time(),
    {
        self.clock
    }
}

/// A handle is freed at most once: the double's bookkeeping never holds two
/// free records for one handle value.
pub proof fn lemma_handle_freed_at_most_once(m: &MockHal, h: i32)
    requires
        m.wf(),
    ensures
        m.freed().to_multiset().count(h) <= 1,
{
    m.freed().to_multiset_ensures();
    if m.freed().contains(h) {
        m.freed().lemma_multiset_has_no_duplicates();
    } else {
        assert(m.freed().to_multiset().count(h) == 0);
    }
}

} // verus!
