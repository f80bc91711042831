//! The timer wheel: deadlines on a monotonic clock that counts in whole
//! units, rounded up to the wheel's resolution. Every entry fires at most
//! once, in a single pass over the wheel, and never before the time asked
//! for has passed.

use vstd::prelude::*;
use vstd::arithmetic::div_mod::lemma_mod_bound;
use crate::io_data::Direction;

verus! {

/// What has become of a timer.
#[derive(Clone, Copy, PartialEq, Eq, Structural, Debug)]
pub enum TimerStatus {
    /// It waits for its deadline.
    Pending,
    /// It fired.
    Fired,
    /// It was cancelled before it fired.
    Cancelled,
}

/// What a timer wakes when it fires.
#[derive(Clone, Copy, PartialEq, Eq, Structural, Debug)]
pub enum TimerTarget {
    /// The sleeping coroutine with this id.
    Co(u64),
    /// Whoever is parked on this side of the record of this descriptor.
    Io { fd: i32, dir: Direction },
}

/// One timer.
#[derive(Clone, Copy, PartialEq, Eq, Structural, Debug)]
pub struct TimerEntry {
    /// The instant from which on the timer may fire.
    pub deadline: u64,
    /// What the timer wakes.
    pub target: TimerTarget,
    pub status: TimerStatus,
}

impl TimerEntry {
    /// Whether the timer fires when the wheel is advanced to `now`.
    pub open spec fn due(self, now: u64) -> bool {
        self.status == TimerStatus::Pending && self.deadline <= now
    }

    /// The timer after the wheel was advanced to `now`.
    pub open spec fn settled(self, now: u64) -> TimerEntry {
        if self.due(now) {
            TimerEntry { status: TimerStatus::Fired, ..self }
        } else {
            self
        }
    }
}

/// The instant `at` rounded up to a multiple of the resolution, or the
/// last instant of the clock if that multiple lies beyond it.
pub open spec fn quantize(at: u64, resolution: u64) -> u64 {
    if at % resolution == 0 {
        at
    } else if at + (resolution - at % resolution) > u64::MAX {
        u64::MAX
    } else {
        (at + (resolution - at % resolution)) as u64
    }
}

/// The instant `dur` after `now`, or the last instant of the clock if
/// that lies beyond it.
pub open spec fn saturating_later(now: u64, dur: u64) -> u64 {
    if now + dur > u64::MAX {
        u64::MAX
    } else {
        (now + dur) as u64
    }
}

/// The targets of the timers that fire when the wheel is advanced to
/// `now`, in the order in which the timers were added.
pub open spec fn fired_at(entries: Seq<TimerEntry>, now: u64) -> Seq<TimerTarget>
    decreases entries.len(),
{
    if entries.len() == 0 {
        Seq::empty()
    } else {
        let rest = fired_at(entries.drop_last(), now);
        if entries.last().due(now) {
            rest.push(entries.last().target)
        } else {
            rest
        }
    }
}

/// The earliest deadline among the pending timers.
pub open spec fn earliest(entries: Seq<TimerEntry>) -> Option<u64>
    decreases entries.len(),
{
    if entries.len() == 0 {
        None
    } else {
        let rest = earliest(entries.drop_last());
        let e = entries.last();
        if e.status == TimerStatus::Pending {
            match rest {
                Some(d) => Some(
                    if e.deadline < d {
                        e.deadline
                    } else {
                        d
                    },
                ),
                None => Some(e.deadline),
            }
        } else {
            rest
        }
    }
}

/// The wheel as plain values.
pub struct TimerState {
    /// All timers ever added, in that order; a handle is an index here.
    pub entries: Seq<TimerEntry>,
    /// The latest instant that the wheel was advanced to.
    pub now: u64,
    /// The granularity of deadlines, at least one unit.
    pub resolution: u64,
}

impl TimerState {
    pub open spec fn wf(self) -> bool {
        self.resolution > 0
    }

    /// The clock after an advance to `now`: it never runs backwards.
    pub open spec fn clock_after(self, now: u64) -> u64 {
        if now > self.now {
            now
        } else {
            self.now
        }
    }

    /// The deadline of a timer of length `dur` added at the instant
    /// `now`: the time counts from `now`, or from the wheel's clock if that
    /// is ahead.
    pub open spec fn deadline_for(self, now: u64, dur: u64) -> u64 {
        quantize(saturating_later(self.clock_after(now), dur), self.resolution)
    }

    /// The wheel after an advance to `now`.
    pub open spec fn after_advance(self, now: u64) -> TimerState {
        let t = self.clock_after(now);
        TimerState {
            entries: Seq::new(self.entries.len(), |i: int| self.entries[i].settled(t)),
            now: t,
            ..self
        }
    }

    /// Whether `handle` names a timer that can still be cancelled.
    pub open spec fn cancellable(self, handle: usize) -> bool {
        handle < self.entries.len() && self.entries[handle as int].status == TimerStatus::Pending
    }

    /// The wheel after a cancel of `handle`.
    pub open spec fn after_cancel(self, handle: usize) -> TimerState {
        if self.cancellable(handle) {
            TimerState {
                entries: self.entries.update(
                    handle as int,
                    TimerEntry { status: TimerStatus::Cancelled, ..self.entries[handle as int] },
                ),
                ..self
            }
        } else {
            self
        }
    }

    /// How long a worker may sleep in a poll of the reactor that begins
    /// at the instant `now`: until the earliest pending deadline, not at
    /// all if that has passed, and without a limit if no timer is pending.
    pub open spec fn poll_timeout(self, now: u64) -> Option<u64> {
        match earliest(self.entries) {
            Some(d) => Some(
                if d > self.clock_after(now) {
                    (d - self.clock_after(now)) as u64
                } else {
                    0
                },
            ),
            None => None,
        }
    }
}

/// The timer wheel.
pub struct TimerWheel {
    entries: Vec<TimerEntry>,
    now: u64,
    resolution: u64,
}

impl View for TimerWheel {
    type V = TimerState;

    closed spec fn view(&self) -> TimerState {
        TimerState { entries: self.entries@, now: self.now, resolution: self.resolution }
    }
}

impl TimerWheel {
    /// An empty wheel whose clock stands at `now`. A resolution of zero
    /// is taken as one unit.
    pub fn new(resolution: u64, now: u64) -> (wheel: TimerWheel)
        ensures
            wheel@.wf(),
            wheel@.entries.len() == 0,
            wheel@.now == now,
            wheel@.resolution == if resolution == 0 {
                1
            } else {
                resolution
            },
    {
        TimerWheel {
            entries: Vec::new(),
            now,
            resolution: if resolution == 0 {
                1
            } else {
                resolution
            },
        }
    }

    pub fn now(&self) -> (now: u64)
        ensures
            now == self@.now,
    {
        self.now
    }

    pub fn resolution(&self) -> (resolution: u64)
        ensures
            resolution == self@.resolution,
    {
        self.resolution
    }

    /// The timer that `handle` names.
    pub fn entry(&self, handle: usize) -> (entry: Option<TimerEntry>)
        ensures
            entry == if handle < self@.entries.len() {
                Some(self@.entries[handle as int])
            } else {
                None
            },
    {
        if handle < self.entries.len() {
            Some(self.entries[handle])
        } else {
            None
        }
    }

    /// Adds, at the instant `now`, a timer for `target` that may fire
    /// once `dur` has passed, its deadline rounded up to the resolution.
    /// The wheel's clock stays where it is. The answer is the timer's
    /// handle.
    pub fn add(&mut self, now: u64, dur: u64, target: TimerTarget) -> (handle: usize)
        requires
            old(self)@.wf(),
        ensures
            final(self)@.wf(),
            handle == old(self)@.entries.len(),
            final(self)@ == (TimerState {
                entries: old(self)@.entries.push(
                    TimerEntry {
                        deadline: old(self)@.deadline_for(now, dur),
                        target,
                        status: TimerStatus::Pending,
                    },
                ),
                ..old(self)@
            }),
    {
        let from = if now > self.now {
            now
        } else {
            self.now
        };
        let at = if dur > u64::MAX - from {
            u64::MAX
        } else {
            from + dur
        };
        let over = at % self.resolution;
        let deadline = if over == 0 {
            at
        } else if self.resolution - over > u64::MAX - at {
            u64::MAX
        } else {
            at + (self.resolution - over)
        };
        let handle = self.entries.len();
        self.entries.push(TimerEntry { deadline, target, status: TimerStatus::Pending });
        handle
    }

    /// Cancels the timer that `handle` names, if it is still pending. The
    /// answer says whether it was: a timer that fired, was cancelled
    /// before, or never existed is left alone.
    pub fn cancel(&mut self, handle: usize) -> (cancelled: bool)
        ensures
            cancelled == old(self)@.cancellable(handle),
            final(self)@ == old(self)@.after_cancel(handle),
    {
        if handle < self.entries.len() {
            let e = self.entries[handle];
            if e.status == TimerStatus::Pending {
                self.entries.set(
                    handle,
                    TimerEntry { deadline: e.deadline, target: e.target, status: TimerStatus::Cancelled },
                );
                return true;
            }
        }
        false
    }

    /// Advances the wheel to `now` and fires, in one pass, every pending
    /// timer whose deadline has come. The answer lists their targets in
    /// the order in which the timers were added.
    pub fn advance(&mut self, now: u64) -> (fired: Vec<TimerTarget>)
        ensures
            final(self)@ == old(self)@.after_advance(now),
            fired@ == fired_at(old(self)@.entries, old(self)@.clock_after(now)),
    {
        let ghost before = self@;
        if now > self.now {
            self.now = now;
        }
        let t = self.now;
        let mut fired: Vec<TimerTarget> = Vec::new();
        let mut i: usize = 0;
        while i < self.entries.len()
            invariant
                i <= self.entries@.len(),
                self.entries@.len() == before.entries.len(),
                self.now == t,
                self.resolution == before.resolution,
                forall|j: int| 0 <= j < i ==> self.entries@[j] == before.entries[j].settled(t),
                forall|j: int| i <= j < self.entries@.len() ==> self.entries@[j] == before.entries[j],
                fired@ == fired_at(before.entries.subrange(0, i as int), t),
            decreases self.entries@.len() - i,
        {
            let e = self.entries[i];
            proof {
                assert(before.entries.subrange(0, i + 1).drop_last() =~= before.entries.subrange(
                    0,
                    i as int,
                ));
            }
            if e.status == TimerStatus::Pending && e.deadline <= t {
                self.entries.set(
                    i,
                    TimerEntry { deadline: e.deadline, target: e.target, status: TimerStatus::Fired },
                );
                fired.push(e.target);
            }
            i += 1;
        }
        proof {
            assert(before.entries.subrange(0, i as int) =~= before.entries);
            assert(self@.entries =~= before.after_advance(now).entries);
        }
        fired
    }

    /// The earliest deadline among the pending timers.
    pub fn next_deadline(&self) -> (deadline: Option<u64>)
        ensures
            deadline == earliest(self@.entries),
    {
        let mut best: Option<u64> = None;
        let mut i: usize = 0;
        while i < self.entries.len()
            invariant
                i <= self.entries@.len(),
                best == earliest(self.entries@.subrange(0, i as int)),
            decreases self.entries@.len() - i,
        {
            let e = self.entries[i];
            proof {
                assert(self.entries@.subrange(0, i + 1).drop_last() =~= self.entries@.subrange(
                    0,
                    i as int,
                ));
            }
            if e.status == TimerStatus::Pending {
                best = match best {
                    Some(d) => Some(
                        if e.deadline < d {
                            e.deadline
                        } else {
                            d
                        },
                    ),
                    None => Some(e.deadline),
                };
            }
            i += 1;
        }
        proof {
            assert(self.entries@.subrange(0, i as int) =~= self.entries@);
        }
        best
    }

    /// How long a worker may sleep in a poll of the reactor that begins
    /// at the instant `now`, see [`TimerState::poll_timeout`].
    pub fn poll_timeout(&self, now: u64) -> (timeout: Option<u64>)
        ensures
            timeout == self@.poll_timeout(now),
    {
        let from = if now > self.now {
            now
        } else {
            self.now
        };
        match self.next_deadline() {
            Some(d) => Some(
                if d > from {
                    d - from
                } else {
                    0
                },
            ),
            None => None,
        }
    }
}

/// The earliest deadline is the deadline of a pending timer and no
/// pending timer has an earlier one; there is none exactly when no timer
/// is pending.
pub proof fn lemma_earliest_is_least(entries: Seq<TimerEntry>)
    ensures
        match earliest(entries) {
            Some(d) => (exists|i: int|
                0 <= i < entries.len() && (#[trigger] entries[i]).status == TimerStatus::Pending
                    && entries[i].deadline == d) && (forall|i: int|
                0 <= i < entries.len() && (#[trigger] entries[i]).status == TimerStatus::Pending
                    ==> d <= entries[i].deadline),
            None => forall|i: int|
                0 <= i < entries.len() ==> (#[trigger] entries[i]).status != TimerStatus::Pending,
        },
    decreases entries.len(),
{
    if entries.len() > 0 {
        let rest = entries.drop_last();
        lemma_earliest_is_least(rest);
        let last = entries.len() - 1;
        assert forall|i: int| 0 <= i < rest.len() implies rest[i] == entries[i] by {}
        match earliest(entries) {
            Some(d) => {
                if entries.last().status == TimerStatus::Pending && entries.last().deadline == d {
                    assert(entries[last].deadline == d);
                } else {
                    let i = choose|i: int|
                        0 <= i < rest.len() && (#[trigger] rest[i]).status == TimerStatus::Pending
                            && rest[i].deadline == d;
                    assert(entries[i].deadline == d);
                }
                assert forall|i: int|
                    0 <= i < entries.len() && (#[trigger] entries[i]).status
                        == TimerStatus::Pending implies d <= entries[i].deadline by {
                    if i < rest.len() {
                        assert(rest[i].status == TimerStatus::Pending);
                    }
                }
            },
            None => {
                assert forall|i: int| 0 <= i < entries.len() implies (#[trigger] entries[i]).status
                    != TimerStatus::Pending by {
                    if i < rest.len() {
                        assert(rest[i].status != TimerStatus::Pending);
                    }
                }
            },
        }
    }
}

/// Whether a timer for `target` is pending in `entries` with its
/// deadline come at `now`.
pub open spec fn has_due(entries: Seq<TimerEntry>, now: u64, target: TimerTarget) -> bool {
    exists|i: int|
        0 <= i < entries.len() && (#[trigger] entries[i]).due(now) && entries[i].target == target
}

/// An advance fires the targets of the timers that were pending with
/// their deadline come, and no others.
pub proof fn lemma_fired_are_due(entries: Seq<TimerEntry>, now: u64)
    ensures
        forall|k: int|
            0 <= k < fired_at(entries, now).len() ==> has_due(
                entries,
                now,
                #[trigger] fired_at(entries, now)[k],
            ),
        forall|i: int|
            0 <= i < entries.len() && (#[trigger] entries[i]).due(now) ==> fired_at(
                entries,
                now,
            ).contains(entries[i].target),
    decreases entries.len(),
{
    if entries.len() > 0 {
        let rest = entries.drop_last();
        let out = fired_at(entries, now);
        lemma_fired_are_due(rest, now);
        assert forall|k: int| 0 <= k < out.len() implies has_due(entries, now, #[trigger] out[k]) by {
            if k < fired_at(rest, now).len() {
                assert(has_due(rest, now, fired_at(rest, now)[k]));
                let i = choose|i: int|
                    0 <= i < rest.len() && (#[trigger] rest[i]).due(now) && rest[i].target
                        == fired_at(rest, now)[k];
                assert(entries[i].due(now) && entries[i].target == out[k]);
            } else {
                assert(entries[entries.len() - 1].due(now));
            }
        }
        assert forall|i: int| 0 <= i < entries.len() && (#[trigger] entries[i]).due(now) implies out.contains(
            entries[i].target,
        ) by {
            if i < rest.len() {
                assert(rest[i].due(now));
                let k = choose|k: int|
                    0 <= k < fired_at(rest, now).len() && fired_at(rest, now)[k] == rest[i].target;
                assert(out[k] == entries[i].target);
            } else {
                assert(out[out.len() - 1] == entries[i].target);
            }
        }
    }
}

/// A timer fires once: after an advance no timer that was due is pending,
/// so a second advance to the same instant fires nothing.
pub proof fn lemma_fires_once(s: TimerState, now: u64)
    ensures
        fired_at(s.after_advance(now).entries, s.after_advance(now).clock_after(now)).len() == 0,
{
    let t = s.after_advance(now);
    lemma_fired_are_due(t.entries, t.clock_after(now));
    assert(t.clock_after(now) == s.clock_after(now));
    if fired_at(t.entries, t.clock_after(now)).len() > 0 {
        assert(has_due(t.entries, t.clock_after(now), fired_at(t.entries, t.clock_after(now))[0]));
        let i = choose|i: int|
            0 <= i < t.entries.len() && (#[trigger] t.entries[i]).due(t.clock_after(now))
                && t.entries[i].target == fired_at(t.entries, t.clock_after(now))[0];
        assert(t.entries[i] == s.entries[i].settled(s.clock_after(now)));
    }
}

/// A sleep never ends early, and a timeout never comes early: a timer of
/// length `dur` added at the instant `now` has its deadline at `dur` after
/// that instant or later, by less than one resolution. So when it fires,
/// at a poll at `later`, at least `dur` has passed since it was added.
pub proof fn lemma_sleep_lower_bound(s: TimerState, now: u64, dur: u64, later: u64)
    requires
        s.wf(),
        s.clock_after(now) + dur <= u64::MAX,
        s.deadline_for(now, dur) <= later,
    ensures
        s.clock_after(now) + dur <= s.deadline_for(now, dur),
        s.deadline_for(now, dur) - (s.clock_after(now) + dur) < s.resolution,
        later - s.clock_after(now) >= dur,
        later - now >= dur,
{
    let at = (s.clock_after(now) + dur) as u64;
    lemma_mod_bound(at as int, s.resolution as int);
}

/// A timer that is added does not fire in a poll that begins before its
/// time has passed: at any instant before `dur` after `now` it is not due.
pub proof fn lemma_not_due_early(s: TimerState, now: u64, dur: u64, target: TimerTarget, at: u64)
    requires
        s.wf(),
        s.clock_after(now) + dur <= u64::MAX,
        at < s.clock_after(now) + dur,
    ensures
        !(TimerEntry {
            deadline: s.deadline_for(now, dur),
            target,
            status: TimerStatus::Pending,
        }).due(at),
{
    lemma_sleep_lower_bound(s, now, dur, s.deadline_for(now, dur));
}

} // verus!
