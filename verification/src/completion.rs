//! The record of one overlapped operation on a completion port. Only the
//! arrival of the completion wakes the parked coroutine; a timer or a
//! cancel asks the system to abort the operation and waits for the
//! completion like everybody else.

use vstd::prelude::*;
use crate::error::IoError;

verus! {

/// Everything the record of an overlapped operation holds.
#[derive(Clone, Copy, PartialEq, Eq, Structural, Debug)]
pub struct EventState {
    /// The handle that the operation runs on.
    pub handle: usize,
    /// The coroutine parked on the operation, if any.
    pub co: Option<u64>,
    /// The completion has arrived.
    pub complete: bool,
    /// The number of bytes that the completion reported.
    pub size: usize,
    /// The error of the operation, if it failed.
    pub error: Option<IoError>,
    /// The timer fired while the operation was pending.
    pub timed_out: bool,
}

impl EventState {
    /// The record of an operation on `handle` that was not submitted yet.
    pub open spec fn fresh(handle: usize) -> EventState {
        EventState { handle, co: None, complete: false, size: 0, error: None, timed_out: false }
    }

    /// The record after the completion with the given status arrived.
    pub open spec fn after_complete(self, status: Result<usize, IoError>) -> EventState {
        match status {
            Ok(n) => EventState { co: None, complete: true, size: n, error: None, ..self },
            Err(e) => EventState { co: None, complete: true, error: Some(e), ..self },
        }
    }

    /// Whether a coroutine waits for a completion that has not arrived.
    pub open spec fn pending(self) -> bool {
        self.co is Some && !self.complete
    }

    /// The record after the timer fired: marked, if the operation was
    /// still pending with a coroutine parked on it.
    pub open spec fn after_timer(self) -> EventState {
        if self.pending() {
            EventState { timed_out: true, ..self }
        } else {
            self
        }
    }

    /// What the operation's coroutine finds when it runs again, in the
    /// order in which it looks: its token set (`cancelled`), the timer's
    /// mark, a completion that has not arrived, the error of the
    /// operation, and at last the number of bytes.
    pub open spec fn result(self, cancelled: bool) -> Result<usize, IoError> {
        if cancelled {
            Err(IoError::Cancelled)
        } else if self.timed_out {
            Err(IoError::TimedOut)
        } else if !self.complete {
            Err(IoError::Other)
        } else {
            match self.error {
                Some(e) => Err(e),
                None => Ok(self.size),
            }
        }
    }
}

/// The record of one overlapped operation.
pub struct EventData {
    state: EventState,
}

impl View for EventData {
    type V = EventState;

    closed spec fn view(&self) -> EventState {
        self.state
    }
}

impl EventData {
    pub fn new(handle: usize) -> (io: EventData)
        ensures
            io@ == EventState::fresh(handle),
    {
        EventData {
            state: EventState {
                handle,
                co: None,
                complete: false,
                size: 0,
                error: None,
                timed_out: false,
            },
        }
    }

    /// A copy of the record's contents.
    pub fn state(&self) -> (s: EventState)
        ensures
            s == self@,
    {
        self.state
    }

    /// Parks `co` on the operation, before the operation is submitted. The
    /// record holds one coroutine: if it has one already nothing changes
    /// and the answer is `false`.
    pub fn park(&mut self, co: u64) -> (parked: bool)
        ensures
            parked == (old(self)@.co is None),
            final(self)@ == if old(self)@.co is None {
                EventState { co: Some(co), ..old(self)@ }
            } else {
                old(self)@
            },
    {
        if self.state.co.is_none() {
            self.state.co = Some(co);
            true
        } else {
            false
        }
    }

    /// Takes the parked coroutine out of the record.
    pub fn take_co(&mut self) -> (co: Option<u64>)
        ensures
            co == old(self)@.co,
            final(self)@ == (EventState { co: None, ..old(self)@ }),
    {
        let co = self.state.co;
        self.state.co = None;
        co
    }

    /// Records an error found before the operation ever reached the
    /// system: the operation is over with it.
    pub fn fail(&mut self, e: IoError)
        ensures
            final(self)@ == (EventState { complete: true, error: Some(e), ..old(self)@ }),
    {
        self.state.complete = true;
        self.state.error = Some(e);
    }

    /// The reactor's step for a completion taken from the port: records
    /// the status and hands out the parked coroutine to be made ready.
    pub fn complete(&mut self, status: Result<usize, IoError>) -> (co: Option<u64>)
        ensures
            co == old(self)@.co,
            final(self)@ == old(self)@.after_complete(status),
    {
        let co = self.state.co;
        self.state.co = None;
        self.state.complete = true;
        match status {
            Ok(n) => {
                self.state.size = n;
                self.state.error = None;
            },
            Err(e) => {
                self.state.error = Some(e);
            },
        }
        co
    }

    /// The timer's step. The answer says whether to ask the system to
    /// abort the operation: exactly when the mark was left. The coroutine
    /// stays parked until the completion of the aborted operation arrives.
    pub fn fire_timer(&mut self) -> (abort: bool)
        ensures
            abort == old(self)@.pending(),
            final(self)@ == old(self)@.after_timer(),
    {
        if self.state.co.is_some() && !self.state.complete {
            self.state.timed_out = true;
            true
        } else {
            false
        }
    }

    /// The step of a cancel that reached the operation. The answer says
    /// whether to ask the system to abort it: exactly when a coroutine
    /// still waits for its completion. The coroutine stays parked until
    /// the completion of the aborted operation arrives, and then finds its
    /// token set.
    pub fn cancel(&self) -> (abort: bool)
        ensures
            abort == self@.pending(),
    {
        self.state.co.is_some() && !self.state.complete
    }

    /// The handle that the operation runs on.
    pub fn handle(&self) -> (handle: usize)
        ensures
            handle == self@.handle,
    {
        self.state.handle
    }

    /// The result of the operation for its coroutine, see
    /// [`EventState::result`].
    pub fn result(&self, cancelled: bool) -> (result: Result<usize, IoError>)
        ensures
            result == self@.result(cancelled),
    {
        if cancelled {
            Err(IoError::Cancelled)
        } else if self.state.timed_out {
            Err(IoError::TimedOut)
        } else if !self.state.complete {
            Err(IoError::Other)
        } else {
            match self.state.error {
                Some(e) => Err(e),
                None => Ok(self.state.size),
            }
        }
    }
}

/// A timer and a completion that race for one parked coroutine: the
/// completion alone wakes it, whichever comes first, and the timer leaves
/// its mark exactly when it came first.
pub proof fn lemma_timer_completion_race(s: EventState, co: u64, status: Result<usize, IoError>)
    requires
        s.co == Some(co),
        !s.complete,
        !s.timed_out,
    ensures
        s.after_timer().co == Some(co),
        s.after_timer().after_complete(status).co is None,
        s.after_timer().after_complete(status).timed_out,
        s.after_complete(status).co is None,
        s.after_complete(status).after_timer() == s.after_complete(status),
        !s.after_complete(status).timed_out,
{
}

} // verus!
