//! The readiness reactor: the table of registration records, one per
//! descriptor, and the timer wheel. Each poll advances the wheel, fires
//! the timers that are due and delivers the events of the batch; every
//! coroutine that leaves a park slot on the way is handed to the caller
//! to be made ready.

use vstd::prelude::*;
use std::time::Duration;
use crate::cancel::{CancelState, CancelToken, IoRef};
use crate::error::IoError;
use crate::event_source::{
    attempted,
    poll,
    spec_attempted,
    spec_poll,
    spec_subscribe,
    subscribe,
    PollStep,
    Step,
    Subscription,
};
use crate::io_data::{Direction, IoData, IoState};
use crate::timer::{
    fired_at,
    lemma_sleep_lower_bound,
    TimerEntry,
    TimerState,
    TimerStatus,
    TimerTarget,
    TimerWheel,
};

verus! {

/// One event of a poll: the sides of a descriptor that became ready.
#[derive(Clone, Copy, PartialEq, Eq, Structural, Debug)]
pub struct IoEvent {
    pub fd: i32,
    pub readable: bool,
    pub writable: bool,
}

/// What is left to do after a coroutine was cancelled.
#[derive(Clone, Copy, PartialEq, Eq, Structural, Debug)]
pub struct CancelAction {
    /// Put this coroutine back on a ready queue.
    pub wake: Option<u64>,
    /// Take the cancel's step on the overlapped operation pending on this
    /// handle, and ask the system to abort it if the step says so.
    pub abort: Option<usize>,
}

/// The reactor as plain values.
pub struct ReactorState {
    /// The records, in the order of registration.
    pub records: Seq<IoState>,
    pub timers: TimerState,
}

impl ReactorState {
    /// Whether a record at `i` stands for `fd`.
    pub open spec fn is_slot(self, fd: i32, i: int) -> bool {
        0 <= i < self.records.len() && self.records[i].fd == fd
    }

    /// Whether `fd` is registered.
    pub open spec fn registered(self, fd: i32) -> bool {
        exists|i: int| self.is_slot(fd, i)
    }

    /// The place of the record of `fd`.
    pub open spec fn slot(self, fd: i32) -> int {
        choose|i: int| self.is_slot(fd, i)
    }

    /// The wheel is well-formed and no descriptor has two records.
    pub open spec fn wf(self) -> bool {
        &&& self.timers.wf()
        &&& forall|i: int, j: int|
            0 <= i < self.records.len() && 0 <= j < self.records.len() && i != j
                ==> self.records[i].fd != self.records[j].fd
    }

    /// The reactor with the record of `fd` replaced by `io`.
    pub open spec fn with_record(self, fd: i32, io: IoState) -> ReactorState {
        ReactorState { records: self.records.update(self.slot(fd), io), ..self }
    }

    /// The reactor after a timer for `target` fired. Only a timer on a
    /// registered descriptor touches a record.
    pub open spec fn after_timer(self, target: TimerTarget) -> ReactorState {
        match target {
            TimerTarget::Io { fd, dir } => if self.registered(fd) {
                self.with_record(fd, self.records[self.slot(fd)].after_timer(dir))
            } else {
                self
            },
            TimerTarget::Co(_) => self,
        }
    }

    /// The coroutine that a timer for `target` wakes: the sleeper itself,
    /// or whoever is still parked on the side that the timer watches.
    pub open spec fn woken_by_timer(self, target: TimerTarget) -> Option<u64> {
        match target {
            TimerTarget::Io { fd, dir } => if self.registered(fd) {
                self.records[self.slot(fd)].parked(dir)
            } else {
                None
            },
            TimerTarget::Co(co) => Some(co),
        }
    }

    /// The reactor after one event was delivered. An event for a
    /// descriptor that is not registered is dropped.
    pub open spec fn after_event(self, ev: IoEvent) -> ReactorState {
        if self.registered(ev.fd) {
            self.with_record(
                ev.fd,
                self.records[self.slot(ev.fd)].after_deliver(ev.readable, ev.writable),
            )
        } else {
            self
        }
    }

    /// The coroutines that one event wakes: the parked reader, then the
    /// parked writer.
    pub open spec fn woken_by_event(self, ev: IoEvent) -> Seq<u64> {
        if self.registered(ev.fd) {
            let woken = self.records[self.slot(ev.fd)].woken_by_deliver(ev.readable, ev.writable);
            listed(woken.0) + listed(woken.1)
        } else {
            Seq::empty()
        }
    }

    /// The step of an operation on side `dir` of `fd` when its coroutine
    /// runs. On a descriptor that is not registered no event can ever
    /// come, so the operation fails instead of waiting.
    pub open spec fn op_poll(self, fd: i32, dir: Direction, token: CancelState) -> (
        ReactorState,
        PollStep,
    ) {
        if self.registered(fd) {
            let next = spec_poll(self.records[self.slot(fd)], dir, token);
            (self.with_record(fd, next.0), next.1)
        } else {
            (self, PollStep::Failed(IoError::Other))
        }
    }

    /// The step of an operation on side `dir` of `fd` on the outcome of
    /// its system call. On a descriptor that is not registered every
    /// outcome ends the operation, and `WouldBlock`, which cannot be
    /// waited out there, ends it with an error of its own.
    pub open spec fn op_attempted<T>(
        self,
        fd: i32,
        dir: Direction,
        outcome: Result<T, IoError>,
        token: CancelState,
    ) -> (ReactorState, Step<T>) {
        if self.registered(fd) {
            let next = spec_attempted(self.records[self.slot(fd)], dir, outcome, token);
            (self.with_record(fd, next.0), next.1)
        } else if outcome == Err::<T, IoError>(IoError::WouldBlock) {
            (self, Step::Return(Err(IoError::Other)))
        } else {
            (self, Step::Return(outcome))
        }
    }

    /// The hand-over of the suspended coroutine `co` for an operation on
    /// side `dir` of `fd`. On a descriptor that is not registered the
    /// coroutine is not parked but woken at once.
    pub open spec fn op_subscribe(
        self,
        fd: i32,
        dir: Direction,
        co: u64,
        token: CancelState,
        timeout: Option<Duration>,
    ) -> (ReactorState, CancelState, Subscription) {
        if self.registered(fd) {
            let next = spec_subscribe(self.records[self.slot(fd)], dir, co, token, timeout);
            (self.with_record(fd, next.0), next.1, next.2)
        } else {
            (self, token, Subscription { timer: None, wake: Some(co) })
        }
    }

    /// The reactor after a cancel reached side `dir` of `fd`.
    pub open spec fn after_cancel(self, fd: i32, dir: Direction) -> ReactorState {
        if self.registered(fd) {
            self.with_record(fd, self.records[self.slot(fd)].after_cancel(dir))
        } else {
            self
        }
    }

    /// The coroutine that a cancel on side `dir` of `fd` wakes.
    pub open spec fn woken_by_cancel(self, fd: i32, dir: Direction) -> Option<u64> {
        if self.registered(fd) {
            self.records[self.slot(fd)].parked(dir)
        } else {
            None
        }
    }

    /// The reactor after the coroutine that owns `token` was cancelled:
    /// the record that the token pointed at, if it pointed at one, got the
    /// cancel.
    pub open spec fn after_cancel_task(self, token: CancelState) -> ReactorState {
        match token.io {
            Some(IoRef::Record { fd, dir }) => self.after_cancel(fd, dir),
            _ => self,
        }
    }

    /// What the cancel of the owner of `token` asks of the caller: to
    /// make ready the coroutine parked on the record that the token
    /// pointed at, or to have the overlapped operation aborted that it
    /// pointed at.
    pub open spec fn cancel_task_action(self, token: CancelState) -> CancelAction {
        match token.io {
            Some(IoRef::Record { fd, dir }) => CancelAction {
                wake: self.woken_by_cancel(fd, dir),
                abort: None,
            },
            Some(IoRef::Overlapped { handle }) => CancelAction { wake: None, abort: Some(handle) },
            None => CancelAction { wake: None, abort: None },
        }
    }

    /// The reactor after the timers for `fired` fired, in that order.
    pub open spec fn after_timers(self, fired: Seq<TimerTarget>) -> ReactorState
        decreases fired.len(),
    {
        if fired.len() == 0 {
            self
        } else {
            self.after_timers(fired.drop_last()).after_timer(fired.last())
        }
    }

    /// The coroutines that the timers for `fired` wake, in that order.
    pub open spec fn woken_by_timers(self, fired: Seq<TimerTarget>) -> Seq<u64>
        decreases fired.len(),
    {
        if fired.len() == 0 {
            Seq::empty()
        } else {
            self.woken_by_timers(fired.drop_last()) + listed(
                self.after_timers(fired.drop_last()).woken_by_timer(fired.last()),
            )
        }
    }

    /// The reactor after `events` were delivered, in that order.
    pub open spec fn after_events(self, events: Seq<IoEvent>) -> ReactorState
        decreases events.len(),
    {
        if events.len() == 0 {
            self
        } else {
            self.after_events(events.drop_last()).after_event(events.last())
        }
    }

    /// The coroutines that `events` wake, in that order.
    pub open spec fn woken_by_events(self, events: Seq<IoEvent>) -> Seq<u64>
        decreases events.len(),
    {
        if events.len() == 0 {
            Seq::empty()
        } else {
            self.woken_by_events(events.drop_last()) + self.after_events(
                events.drop_last(),
            ).woken_by_event(events.last())
        }
    }

    /// The reactor with its clock advanced to `now` and the timers that
    /// were due marked as fired, before any of them has touched a record.
    pub open spec fn with_clock(self, now: u64) -> ReactorState {
        ReactorState { timers: self.timers.after_advance(now), ..self }
    }

    /// The timers that fire at a poll at `now`.
    pub open spec fn due(self, now: u64) -> Seq<TimerTarget> {
        fired_at(self.timers.entries, self.timers.clock_after(now))
    }

    /// The reactor after a poll at `now` that brought `events`: first the
    /// timers that are due fire, then the events are delivered.
    pub open spec fn after_poll(self, now: u64, events: Seq<IoEvent>) -> ReactorState {
        self.with_clock(now).after_timers(self.due(now)).after_events(events)
    }

    /// The coroutines to make ready after a poll, in the order in which
    /// they were woken.
    pub open spec fn woken_by_poll(self, now: u64, events: Seq<IoEvent>) -> Seq<u64> {
        self.with_clock(now).woken_by_timers(self.due(now)) + self.with_clock(now).after_timers(
            self.due(now),
        ).woken_by_events(events)
    }
}

/// The coroutine in `co`, if any, as a list.
pub open spec fn listed(co: Option<u64>) -> Seq<u64> {
    match co {
        Some(id) => seq![id],
        None => Seq::empty(),
    }
}

/// The reactor.
pub struct Reactor {
    records: Vec<IoData>,
    timers: TimerWheel,
}

impl View for Reactor {
    type V = ReactorState;

    closed spec fn view(&self) -> ReactorState {
        ReactorState {
            records: Seq::new(self.records@.len(), |i: int| self.records@[i]@),
            timers: self.timers@,
        }
    }
}

impl Reactor {
    /// A reactor with nothing registered, whose wheel has the given
    /// resolution and stands at `now`.
    pub fn new(resolution: u64, now: u64) -> (reactor: Reactor)
        ensures
            reactor@.wf(),
            reactor@.records.len() == 0,
            reactor@.timers.entries.len() == 0,
            reactor@.timers.now == now,
            reactor@.timers.resolution == if resolution == 0 {
                1
            } else {
                resolution
            },
    {
        Reactor { records: Vec::new(), timers: TimerWheel::new(resolution, now) }
    }

    /// The place of the record of `fd`.
    fn find(&self, fd: i32) -> (found: Option<usize>)
        requires
            self@.wf(),
        ensures
            match found {
                Some(i) => self@.is_slot(fd, i as int) && self@.registered(fd) && self@.slot(fd)
                    == i,
                None => !self@.registered(fd),
            },
    {
        let mut i: usize = 0;
        while i < self.records.len()
            invariant
                i <= self.records@.len(),
                self@.wf(),
                forall|j: int| 0 <= j < i ==> !self@.is_slot(fd, j),
            decreases self.records@.len() - i,
        {
            if self.records[i].fd() == fd {
                assert(self@.is_slot(fd, i as int));
                assert(self@.is_slot(fd, self@.slot(fd)));
                return Some(i);
            }
            i += 1;
        }
        None
    }

    /// The number of registered descriptors.
    pub fn len(&self) -> (n: usize)
        ensures
            n == self@.records.len(),
    {
        self.records.len()
    }

    /// Whether `fd` is registered.
    pub fn is_registered(&self, fd: i32) -> (b: bool)
        requires
            self@.wf(),
        ensures
            b == self@.registered(fd),
    {
        self.find(fd).is_some()
    }

    /// A copy of the record of `fd`.
    pub fn record(&self, fd: i32) -> (io: Option<IoState>)
        requires
            self@.wf(),
        ensures
            io == if self@.registered(fd) {
                Some(self@.records[self@.slot(fd)])
            } else {
                None
            },
    {
        match self.find(fd) {
            Some(i) => Some(self.records[i].state()),
            None => None,
        }
    }

    /// Registers `fd`. Registering is idempotent: a descriptor that has a
    /// record keeps it as it is, and the answer is `false`.
    pub fn register(&mut self, fd: i32) -> (added: bool)
        requires
            old(self)@.wf(),
        ensures
            final(self)@.wf(),
            final(self)@.registered(fd),
            added == !old(self)@.registered(fd),
            final(self)@ == if old(self)@.registered(fd) {
                old(self)@
            } else {
                ReactorState { records: old(self)@.records.push(IoState::fresh(fd)), ..old(self)@ }
            },
    {
        match self.find(fd) {
            Some(_) => false,
            None => {
                let ghost before = self@;
                self.records.push(IoData::new(fd));
                proof {
                    assert(self@.records =~= before.records.push(IoState::fresh(fd)));
                    assert forall|i: int, j: int|
                        0 <= i < self@.records.len() && 0 <= j < self@.records.len() && i
                            != j implies self@.records[i].fd != self@.records[j].fd by {
                        if i < before.records.len() && j < before.records.len() {
                        } else if i < before.records.len() {
                            assert(!before.is_slot(fd, i));
                        } else {
                            assert(!before.is_slot(fd, j));
                        }
                    }
                    assert(self@.is_slot(fd, before.records.len() as int));
                }
                true
            },
        }
    }

    /// Removes the record of `fd` and hands out what it held, so that
    /// whoever is still parked on it can be woken. A descriptor is
    /// deregistered once: afterwards it has no record, and a second call
    /// finds nothing.
    pub fn deregister(&mut self, fd: i32) -> (removed: Option<IoState>)
        requires
            old(self)@.wf(),
        ensures
            final(self)@.wf(),
            !final(self)@.registered(fd),
            match removed {
                Some(io) => old(self)@.registered(fd) && io == old(self)@.records[old(self)@.slot(
                    fd,
                )] && final(self)@ == (ReactorState {
                    records: old(self)@.records.remove(old(self)@.slot(fd)),
                    ..old(self)@
                }),
                None => !old(self)@.registered(fd) && final(self)@ == old(self)@,
            },
    {
        match self.find(fd) {
            Some(i) => {
                let ghost before = self@;
                let io = self.records.remove(i);
                proof {
                    assert(self@.records =~= before.records.remove(i as int));
                    assert forall|j: int| !self@.is_slot(fd, j) by {
                        if 0 <= j < self@.records.len() {
                            if j < i {
                                assert(self@.records[j] == before.records[j]);
                            } else {
                                assert(self@.records[j] == before.records[j + 1]);
                            }
                        }
                    }
                    assert forall|a: int, b: int|
                        0 <= a < self@.records.len() && 0 <= b < self@.records.len() && a
                            != b implies self@.records[a].fd != self@.records[b].fd by {
                        let a0 = if a < i {
                            a
                        } else {
                            a + 1
                        };
                        let b0 = if b < i {
                            b
                        } else {
                            b + 1
                        };
                        assert(self@.records[a] == before.records[a0]);
                        assert(self@.records[b] == before.records[b0]);
                    }
                }
                Some(io.state())
            },
            None => None,
        }
    }

    /// Arms, at the instant `now`, a timer of length `dur` on side `dir`
    /// of the record of `fd`. The answer is the timer's handle.
    pub fn add_io_timer(&mut self, fd: i32, dir: Direction, now: u64, dur: u64) -> (handle: usize)
        requires
            old(self)@.wf(),
        ensures
            final(self)@.wf(),
            handle == old(self)@.timers.entries.len(),
            final(self)@.records == old(self)@.records,
            final(self)@.timers == (TimerState {
                entries: old(self)@.timers.entries.push(
                    TimerEntry {
                        deadline: old(self)@.timers.deadline_for(now, dur),
                        target: TimerTarget::Io { fd, dir },
                        status: TimerStatus::Pending,
                    },
                ),
                ..old(self)@.timers
            }),
    {
        let ghost before = self@;
        let handle = self.timers.add(now, dur, TimerTarget::Io { fd, dir });
        proof {
            assert(self@.records =~= before.records);
        }
        handle
    }

    /// Arms, at the instant `now`, a timer of length `dur` that wakes the
    /// sleeping coroutine `co`. The answer is the timer's handle.
    pub fn add_timer(&mut self, co: u64, now: u64, dur: u64) -> (handle: usize)
        requires
            old(self)@.wf(),
        ensures
            final(self)@.wf(),
            handle == old(self)@.timers.entries.len(),
            final(self)@.records == old(self)@.records,
            final(self)@.timers == (TimerState {
                entries: old(self)@.timers.entries.push(
                    TimerEntry {
                        deadline: old(self)@.timers.deadline_for(now, dur),
                        target: TimerTarget::Co(co),
                        status: TimerStatus::Pending,
                    },
                ),
                ..old(self)@.timers
            }),
    {
        let ghost before = self@;
        let handle = self.timers.add(now, dur, TimerTarget::Co(co));
        proof {
            assert(self@.records =~= before.records);
        }
        handle
    }

    /// Cancels the timer that `handle` names, if it is still pending.
    pub fn cancel_timer(&mut self, handle: usize) -> (cancelled: bool)
        requires
            old(self)@.wf(),
        ensures
            final(self)@.wf(),
            cancelled == old(self)@.timers.cancellable(handle),
            final(self)@.records == old(self)@.records,
            final(self)@.timers == old(self)@.timers.after_cancel(handle),
    {
        let ghost before = self@;
        let cancelled = self.timers.cancel(handle);
        proof {
            assert(self@.records =~= before.records);
        }
        cancelled
    }

    /// How long the worker may sleep in a poll that begins at the instant
    /// `now`.
    pub fn poll_timeout(&self, now: u64) -> (timeout: Option<u64>)
        ensures
            timeout == self@.timers.poll_timeout(now),
    {
        self.timers.poll_timeout(now)
    }

    /// The step of one timer that fired.
    pub fn fire(&mut self, target: TimerTarget) -> (woken: Option<u64>)
        requires
            old(self)@.wf(),
        ensures
            final(self)@.wf(),
            woken == old(self)@.woken_by_timer(target),
            final(self)@ == old(self)@.after_timer(target),
    {
        let ghost before = self@;
        match target {
            TimerTarget::Co(co) => {
                proof {
                    assert(self@.records =~= before.records);
                }
                Some(co)
            },
            TimerTarget::Io { fd, dir } => {
                match self.find(fd) {
                    Some(i) => {
                        let r = &mut self.records[i];
                        let woken = r.fire_timer(dir);
                        proof {
                            assert(self@.records =~= before.records.update(
                                i as int,
                                before.records[i as int].after_timer(dir),
                            ));
                            lemma_with_record_keeps_wf(
                                before,
                                fd,
                                before.records[i as int].after_timer(dir),
                            );
                        }
                        woken
                    },
                    None => {
                        proof {
                            assert(self@.records =~= before.records);
                        }
                        None
                    },
                }
            },
        }
    }

    /// The step of one event of a poll. The answer names the reader and
    /// the writer that the event wakes.
    pub fn deliver(&mut self, ev: IoEvent) -> (woken: (Option<u64>, Option<u64>))
        requires
            old(self)@.wf(),
        ensures
            final(self)@.wf(),
            listed(woken.0) + listed(woken.1) == old(self)@.woken_by_event(ev),
            final(self)@ == old(self)@.after_event(ev),
    {
        let ghost before = self@;
        match self.find(ev.fd) {
            Some(i) => {
                let r = &mut self.records[i];
                let woken = r.deliver(ev.readable, ev.writable);
                proof {
                    assert(self@.records =~= before.records.update(
                        i as int,
                        before.records[i as int].after_deliver(ev.readable, ev.writable),
                    ));
                    lemma_with_record_keeps_wf(
                        before,
                        ev.fd,
                        before.records[i as int].after_deliver(ev.readable, ev.writable),
                    );
                }
                woken
            },
            None => {
                proof {
                    assert(self@.records =~= before.records);
                    assert(listed(None) + listed(None) =~= Seq::<u64>::empty());
                }
                (None, None)
            },
        }
    }

    /// One poll at the instant `now` that brought `events`: the wheel is
    /// advanced, the timers that are due fire in one pass, and then the
    /// events are delivered. The answer lists the coroutines to make
    /// ready, in the order in which they left their slots.
    pub fn poll(&mut self, now: u64, events: &Vec<IoEvent>) -> (woken: Vec<u64>)
        requires
            old(self)@.wf(),
        ensures
            final(self)@.wf(),
            final(self)@ == old(self)@.after_poll(now, events@),
            woken@ == old(self)@.woken_by_poll(now, events@),
    {
        let ghost before = self@;
        let fired = self.timers.advance(now);
        let ghost clocked = self@;
        proof {
            assert(clocked.records =~= before.records);
            assert(clocked == before.with_clock(now));
            assert(fired@ == before.due(now));
        }
        let mut woken: Vec<u64> = Vec::new();
        let mut i: usize = 0;
        while i < fired.len()
            invariant
                i <= fired@.len(),
                self@.wf(),
                self@ == clocked.after_timers(fired@.subrange(0, i as int)),
                woken@ == clocked.woken_by_timers(fired@.subrange(0, i as int)),
            decreases fired@.len() - i,
        {
            let ghost at = self@;
            let ghost so_far = woken@;
            proof {
                assert(fired@.subrange(0, i + 1).drop_last() =~= fired@.subrange(0, i as int));
            }
            match self.fire(fired[i]) {
                Some(co) => {
                    woken.push(co);
                    proof {
                        assert(woken@ =~= so_far + listed(at.woken_by_timer(fired@[i as int])));
                    }
                },
                None => {
                    proof {
                        assert(woken@ =~= so_far + listed(at.woken_by_timer(fired@[i as int])));
                    }
                },
            }
            i += 1;
        }
        proof {
            assert(fired@.subrange(0, i as int) =~= fired@);
        }
        let ghost timed = self@;
        let ghost by_timers = woken@;
        let mut k: usize = 0;
        while k < events.len()
            invariant
                k <= events@.len(),
                self@.wf(),
                self@ == timed.after_events(events@.subrange(0, k as int)),
                woken@ == by_timers + timed.woken_by_events(events@.subrange(0, k as int)),
            decreases events@.len() - k,
        {
            let ghost at = self@;
            let ghost so_far = woken@;
            proof {
                assert(events@.subrange(0, k + 1).drop_last() =~= events@.subrange(0, k as int));
            }
            let pair = self.deliver(events[k]);
            match pair.0 {
                Some(co) => {
                    woken.push(co);
                },
                None => {},
            }
            let ghost mid = woken@;
            match pair.1 {
                Some(co) => {
                    woken.push(co);
                },
                None => {},
            }
            proof {
                assert(mid =~= so_far + listed(pair.0));
                assert(woken@ =~= mid + listed(pair.1));
                assert(woken@ =~= so_far + (listed(pair.0) + listed(pair.1)));
                assert(woken@ =~= by_timers + (timed.woken_by_events(
                    events@.subrange(0, k as int),
                ) + at.woken_by_event(events@[k as int])));
            }
            k += 1;
        }
        proof {
            assert(events@.subrange(0, k as int) =~= events@);
        }
        woken
    }

    /// One step of an operation on side `dir` of `fd`, taken when its
    /// coroutine runs.
    pub fn op_poll(&mut self, fd: i32, dir: Direction, token: &CancelToken) -> (step: PollStep)
        requires
            old(self)@.wf(),
        ensures
            final(self)@.wf(),
            (final(self)@, step) == old(self)@.op_poll(fd, dir, token@),
    {
        let ghost before = self@;
        match self.find(fd) {
            Some(i) => {
                let r = &mut self.records[i];
                let step = poll(r, dir, token);
                proof {
                    let next = spec_poll(before.records[i as int], dir, token@);
                    assert(self@.records =~= before.records.update(i as int, next.0));
                    lemma_with_record_keeps_wf(before, fd, next.0);
                }
                step
            },
            None => {
                proof {
                    assert(self@.records =~= before.records);
                }
                PollStep::Failed(IoError::Other)
            },
        }
    }

    /// One step of an operation on side `dir` of `fd`, taken on the
    /// outcome of its system call.
    pub fn op_attempted<T>(
        &mut self,
        fd: i32,
        dir: Direction,
        outcome: Result<T, IoError>,
        token: &CancelToken,
    ) -> (step: Step<T>)
        requires
            old(self)@.wf(),
        ensures
            final(self)@.wf(),
            (final(self)@, step) == old(self)@.op_attempted(fd, dir, outcome, token@),
    {
        let ghost before = self@;
        match self.find(fd) {
            Some(i) => {
                let r = &mut self.records[i];
                let step = attempted(r, dir, outcome, token);
                proof {
                    let next = spec_attempted(before.records[i as int], dir, outcome, token@);
                    assert(self@.records =~= before.records.update(i as int, next.0));
                    lemma_with_record_keeps_wf(before, fd, next.0);
                }
                step
            },
            None => {
                proof {
                    assert(self@.records =~= before.records);
                }
                let would_block = match &outcome {
                    Err(e) => e.is_would_block(),
                    Ok(_) => false,
                };
                if would_block {
                    Step::Return(Err(IoError::Other))
                } else {
                    Step::Return(outcome)
                }
            },
        }
    }

    /// Hands the suspended coroutine `co` to the reactor for an operation
    /// on side `dir` of `fd` with the given timeout. Afterwards `co` is
    /// either parked on that side or named in the answer as woken.
    pub fn op_subscribe(
        &mut self,
        fd: i32,
        dir: Direction,
        co: u64,
        token: &mut CancelToken,
        timeout: Option<Duration>,
    ) -> (sub: Subscription)
        requires
            old(self)@.wf(),
        ensures
            final(self)@.wf(),
            (final(self)@, final(token)@, sub) == old(self)@.op_subscribe(
                fd,
                dir,
                co,
                old(token)@,
                timeout,
            ),
            sub.wake is None || sub.wake == Some(co),
    {
        let ghost before = self@;
        match self.find(fd) {
            Some(i) => {
                let r = &mut self.records[i];
                let sub = subscribe(r, dir, co, token, timeout);
                proof {
                    let next = spec_subscribe(before.records[i as int], dir, co, old(token)@, timeout);
                    assert(self@.records =~= before.records.update(i as int, next.0));
                    lemma_with_record_keeps_wf(before, fd, next.0);
                }
                sub
            },
            None => {
                proof {
                    assert(self@.records =~= before.records);
                }
                Subscription { timer: None, wake: Some(co) }
            },
        }
    }

    /// The step of a cancel that reached side `dir` of `fd`: the record
    /// is marked and the coroutine parked there handed out.
    pub fn cancel(&mut self, fd: i32, dir: Direction) -> (woken: Option<u64>)
        requires
            old(self)@.wf(),
        ensures
            final(self)@.wf(),
            woken == old(self)@.woken_by_cancel(fd, dir),
            final(self)@ == old(self)@.after_cancel(fd, dir),
    {
        let ghost before = self@;
        match self.find(fd) {
            Some(i) => {
                let r = &mut self.records[i];
                let woken = r.cancel(dir);
                proof {
                    let next = before.records[i as int].after_cancel(dir);
                    assert(self@.records =~= before.records.update(i as int, next));
                    lemma_with_record_keeps_wf(before, fd, next);
                }
                woken
            },
            None => {
                proof {
                    assert(self@.records =~= before.records);
                }
                None
            },
        }
    }

    /// Cancels the coroutine that owns `token`. The token is set. If the
    /// coroutine is parked on a record it is taken from there and named in
    /// the answer, to be made ready. If it waits for an overlapped
    /// operation the answer names the handle, for the operation to be
    /// aborted.
    pub fn cancel_task(&mut self, token: &mut CancelToken) -> (action: CancelAction)
        requires
            old(self)@.wf(),
        ensures
            final(self)@.wf(),
            final(token)@ == old(token)@.after_cancel(),
            action == old(self)@.cancel_task_action(old(token)@),
            final(self)@ == old(self)@.after_cancel_task(old(token)@),
    {
        match token.cancel() {
            Some(IoRef::Record { fd, dir }) => CancelAction {
                wake: self.cancel(fd, dir),
                abort: None,
            },
            Some(IoRef::Overlapped { handle }) => CancelAction { wake: None, abort: Some(handle) },
            None => CancelAction { wake: None, abort: None },
        }
    }

    /// The record of `fd`, for the operation that works on it.
    pub fn record_mut(&mut self, fd: i32) -> (io: Option<&mut IoData>)
        requires
            old(self)@.wf(),
        ensures
            match io {
                Some(r) => old(self)@.registered(fd) && r@ == old(self)@.records[old(self)@.slot(
                    fd,
                )] && final(self)@.timers == old(self)@.timers && final(self)@.records =~= old(
                    self,
                )@.records.update(old(self)@.slot(fd), final(r)@),
                None => !old(self)@.registered(fd) && final(self)@ == old(self)@,
            },
    {
        match self.find(fd) {
            Some(i) => {
                let r = &mut self.records[i];
                Some(r)
            },
            None => None,
        }
    }
}

/// Replacing the record of a descriptor by one for the same descriptor
/// keeps the table well-formed.
pub proof fn lemma_with_record_keeps_wf(s: ReactorState, fd: i32, io: IoState)
    requires
        s.wf(),
        s.registered(fd),
        io.fd == fd,
    ensures
        s.with_record(fd, io).wf(),
        s.with_record(fd, io).registered(fd),
        s.with_record(fd, io).slot(fd) == s.slot(fd),
{
    let t = s.with_record(fd, io);
    let i = s.slot(fd);
    assert(s.is_slot(fd, i));
    assert(t.is_slot(fd, i));
    assert(t.is_slot(fd, t.slot(fd)));
}

/// A timer does not fire before its time: at a poll whose instant lies
/// before `dur` after the instant `now` at which the timer was armed, the
/// timers that fire are those that would have fired without it.
pub proof fn lemma_new_timer_waits(
    s: ReactorState,
    target: TimerTarget,
    now: u64,
    dur: u64,
    at: u64,
)
    requires
        s.wf(),
        s.timers.clock_after(now) + dur <= u64::MAX,
        s.timers.clock_after(at) < s.timers.clock_after(now) + dur,
    ensures
        ({
            let entry = TimerEntry {
                deadline: s.timers.deadline_for(now, dur),
                target,
                status: TimerStatus::Pending,
            };
            let armed = ReactorState {
                timers: TimerState { entries: s.timers.entries.push(entry), ..s.timers },
                ..s
            };
            &&& entry.deadline >= s.timers.clock_after(now) + dur
            &&& armed.due(at) == s.due(at)
        }),
{
    let entry = TimerEntry {
        deadline: s.timers.deadline_for(now, dur),
        target,
        status: TimerStatus::Pending,
    };
    lemma_sleep_lower_bound(s.timers, now, dur, entry.deadline);
    assert(s.timers.entries.push(entry).drop_last() =~= s.timers.entries);
}

/// Cancelling twice is cancelling once: the second cancel leaves token
/// and reactor as the first left them, wakes nobody and aborts nothing.
pub proof fn lemma_cancel_task_idempotent(s: ReactorState, token: CancelState)
    ensures
        token.after_cancel().after_cancel() == token.after_cancel(),
        s.after_cancel_task(token).after_cancel_task(token.after_cancel()) == s.after_cancel_task(
            token,
        ),
        s.after_cancel_task(token).cancel_task_action(token.after_cancel()) == (CancelAction {
            wake: None,
            abort: None,
        }),
{
}

/// A timer and an event that reach the reactor in one poll for the same
/// parked coroutine wake it once: the timer, which fires first, takes it,
/// and the event finds the slot empty.
pub proof fn lemma_poll_wakes_once(s: ReactorState, fd: i32, dir: Direction, co: u64)
    requires
        s.wf(),
        s.registered(fd),
        s.records[s.slot(fd)].parked(dir) == Some(co),
    ensures
        ({
            let target = TimerTarget::Io { fd, dir };
            let ev = IoEvent {
                fd,
                readable: dir == Direction::Read,
                writable: dir == Direction::Write,
            };
            &&& s.woken_by_timer(target) == Some(co)
            &&& s.after_timer(target).records[s.slot(fd)].parked(dir) is None
            &&& s.after_timer(target).woken_by_event(ev) == Seq::<u64>::empty()
            &&& s.woken_by_event(ev) == seq![co]
            &&& s.after_event(ev).woken_by_timer(target) is None
        }),
{
    let target = TimerTarget::Io { fd, dir };
    let ev = IoEvent { fd, readable: dir == Direction::Read, writable: dir == Direction::Write };
    let i = s.slot(fd);
    assert(s.is_slot(fd, i));
    lemma_with_record_keeps_wf(s, fd, s.records[i].after_timer(dir));
    lemma_with_record_keeps_wf(s, fd, s.records[i].after_deliver(ev.readable, ev.writable));
    let woken = s.records[i].woken_by_deliver(ev.readable, ev.writable);
    assert(listed(woken.0) + listed(woken.1) =~= seq![co]);
    let t = s.after_timer(target);
    let after = t.records[i].woken_by_deliver(ev.readable, ev.writable);
    assert(listed(after.0) + listed(after.1) =~= Seq::<u64>::empty());
}

} // verus!
