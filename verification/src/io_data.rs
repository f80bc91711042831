//! The registration record of one descriptor in a readiness reactor, and
//! the steps that the reactor, the timer and the waiting operations take
//! on it. Each step is atomic; a coroutine parked in a slot leaves it by
//! exactly one of them.

use vstd::prelude::*;

verus! {

/// The side of a descriptor that an operation waits on.
#[derive(Clone, Copy, PartialEq, Eq, Structural, Debug)]
pub enum Direction {
    Read,
    Write,
}

/// Everything a registration record holds, as plain values.
#[derive(Clone, Copy, PartialEq, Eq, Structural, Debug)]
pub struct IoState {
    /// The descriptor that the record stands for.
    pub fd: i32,
    /// The reactor reported the descriptor readable since the last reset.
    pub readable: bool,
    /// The reactor reported the descriptor writable since the last reset.
    pub writable: bool,
    /// A read event arrived that no operation has acknowledged yet.
    pub read_event: bool,
    /// A write event arrived that no operation has acknowledged yet.
    pub write_event: bool,
    /// The last read attempt found nothing and waits for an event.
    pub read_wait: bool,
    /// The last write attempt could not proceed and waits for an event.
    pub write_wait: bool,
    /// The timer of a read won the wakeup of the parked reader.
    pub read_timed_out: bool,
    /// The timer of a write won the wakeup of the parked writer.
    pub write_timed_out: bool,
    /// A cancellation was delivered to the read side.
    pub read_cancelled: bool,
    /// A cancellation was delivered to the write side.
    pub write_cancelled: bool,
    /// The coroutine parked for read, if any.
    pub reader: Option<u64>,
    /// The coroutine parked for write, if any.
    pub writer: Option<u64>,
}

impl IoState {
    /// A record for `fd` with nothing ready and nobody parked.
    pub open spec fn fresh(fd: i32) -> IoState {
        IoState {
            fd,
            readable: false,
            writable: false,
            read_event: false,
            write_event: false,
            read_wait: false,
            write_wait: false,
            read_timed_out: false,
            write_timed_out: false,
            read_cancelled: false,
            write_cancelled: false,
            reader: None,
            writer: None,
        }
    }

    /// The coroutine parked on side `dir`.
    pub open spec fn parked(self, dir: Direction) -> Option<u64> {
        match dir {
            Direction::Read => self.reader,
            Direction::Write => self.writer,
        }
    }

    /// Whether the reactor has reported side `dir` ready.
    pub open spec fn ready(self, dir: Direction) -> bool {
        match dir {
            Direction::Read => self.readable,
            Direction::Write => self.writable,
        }
    }

    /// Whether an operation waits for an event on side `dir`.
    pub open spec fn waiting(self, dir: Direction) -> bool {
        match dir {
            Direction::Read => self.read_wait,
            Direction::Write => self.write_wait,
        }
    }

    /// Whether the timer of side `dir` woke the coroutine parked there and
    /// the operation has not seen it yet.
    pub open spec fn timed_out(self, dir: Direction) -> bool {
        match dir {
            Direction::Read => self.read_timed_out,
            Direction::Write => self.write_timed_out,
        }
    }

    /// Whether a cancellation was delivered to side `dir`.
    pub open spec fn cancelled(self, dir: Direction) -> bool {
        match dir {
            Direction::Read => self.read_cancelled,
            Direction::Write => self.write_cancelled,
        }
    }

    /// The record with the timed-out mark of side `dir` set to `mark`.
    pub open spec fn with_timed_out(self, dir: Direction, mark: bool) -> IoState {
        match dir {
            Direction::Read => IoState { read_timed_out: mark, ..self },
            Direction::Write => IoState { write_timed_out: mark, ..self },
        }
    }

    /// The record with the cancel mark of side `dir` set.
    pub open spec fn with_cancelled(self, dir: Direction) -> IoState {
        match dir {
            Direction::Read => IoState { read_cancelled: true, ..self },
            Direction::Write => IoState { write_cancelled: true, ..self },
        }
    }

    /// Whether an unacknowledged event is pending on side `dir`.
    pub open spec fn event(self, dir: Direction) -> bool {
        match dir {
            Direction::Read => self.read_event,
            Direction::Write => self.write_event,
        }
    }

    /// The record with the slot of side `dir` holding `co`.
    pub open spec fn with_parked(self, dir: Direction, co: Option<u64>) -> IoState {
        match dir {
            Direction::Read => IoState { reader: co, ..self },
            Direction::Write => IoState { writer: co, ..self },
        }
    }

    /// The record with the wait mark of side `dir` set to `wait`.
    pub open spec fn with_waiting(self, dir: Direction, wait: bool) -> IoState {
        match dir {
            Direction::Read => IoState { read_wait: wait, ..self },
            Direction::Write => IoState { write_wait: wait, ..self },
        }
    }

    /// The record with the pending event of side `dir` acknowledged.
    pub open spec fn without_event(self, dir: Direction) -> IoState {
        match dir {
            Direction::Read => IoState { read_event: false, ..self },
            Direction::Write => IoState { write_event: false, ..self },
        }
    }

    /// The record once an operation has reset side `dir` before a new
    /// attempt: neither ready nor waiting.
    pub open spec fn after_reset(self, dir: Direction) -> IoState {
        match dir {
            Direction::Read => IoState { readable: false, read_wait: false, ..self },
            Direction::Write => IoState { writable: false, write_wait: false, ..self },
        }
    }

    /// The record after `co` tried to park on side `dir`: it takes the slot
    /// only if the slot is free.
    pub open spec fn after_park(self, dir: Direction, co: u64) -> IoState {
        if self.parked(dir) is None {
            self.with_parked(dir, Some(co))
        } else {
            self
        }
    }

    /// The record after the reactor reported the given sides ready: the
    /// ready and event marks of those sides are set and their slots emptied.
    pub open spec fn after_deliver(self, readable: bool, writable: bool) -> IoState {
        IoState {
            readable: self.readable || readable,
            read_event: self.read_event || readable,
            reader: if readable {
                None
            } else {
                self.reader
            },
            writable: self.writable || writable,
            write_event: self.write_event || writable,
            writer: if writable {
                None
            } else {
                self.writer
            },
            ..self
        }
    }

    /// The coroutines that a report of the given sides wakes: the parked
    /// reader, then the parked writer.
    pub open spec fn woken_by_deliver(self, readable: bool, writable: bool) -> (
        Option<u64>,
        Option<u64>,
    ) {
        (
            if readable {
                self.reader
            } else {
                None
            },
            if writable {
                self.writer
            } else {
                None
            },
        )
    }

    /// The record after the timer of side `dir` fired: if a coroutine was
    /// still parked there the timer takes it and leaves its mark on that
    /// side, otherwise nothing changes.
    pub open spec fn after_timer(self, dir: Direction) -> IoState {
        if self.parked(dir) is Some {
            self.with_parked(dir, None).with_timed_out(dir, true)
        } else {
            self
        }
    }

    /// The record after a cancellation reached side `dir`: the mark of
    /// that side is set and its slot emptied.
    pub open spec fn after_cancel(self, dir: Direction) -> IoState {
        self.with_parked(dir, None).with_cancelled(dir)
    }
}

/// The registration record of one descriptor.
pub struct IoData {
    state: IoState,
}

impl View for IoData {
    type V = IoState;

    closed spec fn view(&self) -> IoState {
        self.state
    }
}

impl IoData {
    /// Registers `fd`: nothing is ready and nobody is parked.
    pub fn new(fd: i32) -> (io: IoData)
        ensures
            io@ == IoState::fresh(fd),
    {
        IoData {
            state: IoState {
                fd,
                readable: false,
                writable: false,
                read_event: false,
                write_event: false,
                read_wait: false,
                write_wait: false,
                read_timed_out: false,
                write_timed_out: false,
                read_cancelled: false,
                write_cancelled: false,
                reader: None,
                writer: None,
            },
        }
    }

    /// A copy of the record's contents.
    pub fn state(&self) -> (s: IoState)
        ensures
            s == self@,
    {
        self.state
    }

    pub fn fd(&self) -> (fd: i32)
        ensures
            fd == self@.fd,
    {
        self.state.fd
    }

    pub fn is_ready(&self, dir: Direction) -> (b: bool)
        ensures
            b == self@.ready(dir),
    {
        match dir {
            Direction::Read => self.state.readable,
            Direction::Write => self.state.writable,
        }
    }

    pub fn is_read_ready(&self) -> (b: bool)
        ensures
            b == self@.readable,
    {
        self.state.readable
    }

    pub fn is_write_ready(&self) -> (b: bool)
        ensures
            b == self@.writable,
    {
        self.state.writable
    }

    pub fn is_read_wait(&self) -> (b: bool)
        ensures
            b == self@.read_wait,
    {
        self.state.read_wait
    }

    pub fn is_write_wait(&self) -> (b: bool)
        ensures
            b == self@.write_wait,
    {
        self.state.write_wait
    }

    pub fn is_timed_out(&self, dir: Direction) -> (b: bool)
        ensures
            b == self@.timed_out(dir),
    {
        match dir {
            Direction::Read => self.state.read_timed_out,
            Direction::Write => self.state.write_timed_out,
        }
    }

    pub fn is_cancelled(&self, dir: Direction) -> (b: bool)
        ensures
            b == self@.cancelled(dir),
    {
        match dir {
            Direction::Read => self.state.read_cancelled,
            Direction::Write => self.state.write_cancelled,
        }
    }

    /// The coroutine parked on side `dir`, left in place.
    pub fn parked(&self, dir: Direction) -> (co: Option<u64>)
        ensures
            co == self@.parked(dir),
    {
        match dir {
            Direction::Read => self.state.reader,
            Direction::Write => self.state.writer,
        }
    }

    /// Clears the ready and wait marks of side `dir` before a new attempt.
    pub fn reset(&mut self, dir: Direction)
        ensures
            final(self)@ == old(self)@.after_reset(dir),
    {
        match dir {
            Direction::Read => {
                self.state.readable = false;
                self.state.read_wait = false;
            },
            Direction::Write => {
                self.state.writable = false;
                self.state.write_wait = false;
            },
        }
    }

    pub fn reset_read(&mut self)
        ensures
            final(self)@ == old(self)@.after_reset(Direction::Read),
    {
        self.reset(Direction::Read)
    }

    pub fn reset_write(&mut self)
        ensures
            final(self)@ == old(self)@.after_reset(Direction::Write),
    {
        self.reset(Direction::Write)
    }

    /// Marks side `dir` as waiting for an event.
    pub fn set_wait(&mut self, dir: Direction)
        ensures
            final(self)@ == old(self)@.with_waiting(dir, true),
    {
        match dir {
            Direction::Read => {
                self.state.read_wait = true;
            },
            Direction::Write => {
                self.state.write_wait = true;
            },
        }
    }

    pub fn set_read_wait(&mut self)
        ensures
            final(self)@ == old(self)@.with_waiting(Direction::Read, true),
    {
        self.set_wait(Direction::Read)
    }

    pub fn set_write_wait(&mut self)
        ensures
            final(self)@ == old(self)@.with_waiting(Direction::Write, true),
    {
        self.set_wait(Direction::Write)
    }

    /// Acknowledges the pending event of side `dir` and says whether there
    /// was one.
    pub fn take_event(&mut self, dir: Direction) -> (had: bool)
        ensures
            had == old(self)@.event(dir),
            final(self)@ == old(self)@.without_event(dir),
    {
        match dir {
            Direction::Read => {
                let had = self.state.read_event;
                self.state.read_event = false;
                had
            },
            Direction::Write => {
                let had = self.state.write_event;
                self.state.write_event = false;
                had
            },
        }
    }

    /// Clears the timed-out mark of side `dir` and says whether it was
    /// set.
    pub fn take_timed_out(&mut self, dir: Direction) -> (had: bool)
        ensures
            had == old(self)@.timed_out(dir),
            final(self)@ == old(self)@.with_timed_out(dir, false),
    {
        match dir {
            Direction::Read => {
                let had = self.state.read_timed_out;
                self.state.read_timed_out = false;
                had
            },
            Direction::Write => {
                let had = self.state.write_timed_out;
                self.state.write_timed_out = false;
                had
            },
        }
    }

    /// Parks `co` on side `dir`. A slot holds one coroutine: if it is taken
    /// the record stays as it is and the answer is `false`.
    pub fn park(&mut self, dir: Direction, co: u64) -> (parked: bool)
        ensures
            parked == (old(self)@.parked(dir) is None),
            final(self)@ == old(self)@.after_park(dir, co),
    {
        match dir {
            Direction::Read => {
                if self.state.reader.is_none() {
                    self.state.reader = Some(co);
                    true
                } else {
                    false
                }
            },
            Direction::Write => {
                if self.state.writer.is_none() {
                    self.state.writer = Some(co);
                    true
                } else {
                    false
                }
            },
        }
    }

    /// Takes the coroutine parked on side `dir` out of its slot, to be made
    /// ready by the caller. Every wakeup path goes through this step or one
    /// of the three below.
    pub fn schedule(&mut self, dir: Direction) -> (co: Option<u64>)
        ensures
            co == old(self)@.parked(dir),
            final(self)@ == old(self)@.with_parked(dir, None),
    {
        match dir {
            Direction::Read => {
                let co = self.state.reader;
                self.state.reader = None;
                co
            },
            Direction::Write => {
                let co = self.state.writer;
                self.state.writer = None;
                co
            },
        }
    }

    /// The reactor's step for one polled event: marks the reported sides
    /// ready and hands out the coroutines parked on them.
    pub fn deliver(&mut self, readable: bool, writable: bool) -> (woken: (Option<u64>, Option<u64>))
        ensures
            woken == old(self)@.woken_by_deliver(readable, writable),
            final(self)@ == old(self)@.after_deliver(readable, writable),
    {
        let mut reader: Option<u64> = None;
        let mut writer: Option<u64> = None;
        if readable {
            self.state.readable = true;
            self.state.read_event = true;
            reader = self.state.reader;
            self.state.reader = None;
        }
        if writable {
            self.state.writable = true;
            self.state.write_event = true;
            writer = self.state.writer;
            self.state.writer = None;
        }
        (reader, writer)
    }

    /// The timer's step when the deadline of the operation on side `dir`
    /// passes: it wakes the parked coroutine and leaves the timed-out mark,
    /// or finds the slot empty and does nothing.
    pub fn fire_timer(&mut self, dir: Direction) -> (co: Option<u64>)
        ensures
            co == old(self)@.parked(dir),
            final(self)@ == old(self)@.after_timer(dir),
    {
        let co = self.schedule(dir);
        if co.is_some() {
            match dir {
                Direction::Read => {
                    self.state.read_timed_out = true;
                },
                Direction::Write => {
                    self.state.write_timed_out = true;
                },
            }
        }
        co
    }

    /// The cancellation's step: leaves the cancel mark and wakes the
    /// coroutine parked on side `dir`, if one is.
    pub fn cancel(&mut self, dir: Direction) -> (co: Option<u64>)
        ensures
            co == old(self)@.parked(dir),
            final(self)@ == old(self)@.after_cancel(dir),
    {
        let co = self.schedule(dir);
        match dir {
            Direction::Read => {
                self.state.read_cancelled = true;
            },
            Direction::Write => {
                self.state.write_cancelled = true;
            },
        }
        co
    }
}

/// At any moment at most one coroutine is parked for read and at most one
/// for write: a second park on a taken side changes nothing, and the first
/// coroutine stays where it is.
pub proof fn lemma_one_parked_per_side(s: IoState, dir: Direction, first: u64, second: u64)
    requires
        s.parked(dir) is None,
    ensures
        s.after_park(dir, first).parked(dir) == Some(first),
        s.after_park(dir, first).after_park(dir, second) == s.after_park(dir, first),
        s.after_park(dir, first).after_park(dir, second).parked(dir) == Some(first),
{
}

/// A timer and an event that race for the coroutine parked on one side:
/// whichever step comes first takes the coroutine, and the other finds the
/// slot empty. The timed-out mark is left exactly when the timer won, and
/// on that side only: an operation on the other side never sees it.
pub proof fn lemma_timer_event_race(s: IoState, dir: Direction, co: u64)
    requires
        s.parked(dir) == Some(co),
    ensures
        ({
            let readable = dir == Direction::Read;
            let writable = dir == Direction::Write;
            let timer_first = s.after_timer(dir);
            let event_first = s.after_deliver(readable, writable);
            &&& s.after_timer(dir).parked(dir) is None
            &&& timer_first.woken_by_deliver(readable, writable) == (None::<u64>, None::<u64>)
            &&& timer_first.after_deliver(readable, writable).timed_out(dir)
            &&& forall|other: Direction|
                other != dir ==> timer_first.timed_out(other) == s.timed_out(other)
            &&& event_first.parked(dir) is None
            &&& event_first.after_timer(dir) == event_first
            &&& event_first.timed_out(dir) == s.timed_out(dir)
        }),
{
}

/// Delivering a cancellation twice leaves the record as delivering it once
/// does, and the second delivery wakes nobody.
pub proof fn lemma_cancel_twice(s: IoState, dir: Direction)
    ensures
        s.after_cancel(dir).after_cancel(dir) == s.after_cancel(dir),
        s.after_cancel(dir).parked(dir) is None,
{
}

} // verus!
