//! The life of one coroutine, from creation to its end, and the join on
//! its result.

use vstd::prelude::*;
use crate::park::{ParkState, ParkStep, Parker};

verus! {

/// The state of a coroutine. It is in one state at a time.
#[derive(Clone, Copy, PartialEq, Eq, Structural, Debug)]
pub enum CoState {
    /// It has a stack and has never been queued.
    Created,
    /// It waits in a ready queue.
    Ready,
    /// A worker runs it.
    Running,
    /// An event source owns it until the event.
    Parked,
    /// Its entry returned or panicked.
    Done,
    /// It was ended by a cancel.
    Aborted,
}

/// What can happen to a coroutine before its end.
#[derive(Clone, Copy, PartialEq, Eq, Structural, Debug)]
pub enum CoEvent {
    /// It is put on a ready queue for the first time.
    Enqueue,
    /// A worker takes it from a queue and runs it.
    Resume,
    /// It gives up the worker and goes back to the queue.
    Yield,
    /// It suspends on an event source.
    Park,
    /// The event source makes it ready again.
    Wake,
}

impl CoState {
    /// Whether the coroutine has ended.
    pub open spec fn is_terminal(self) -> bool {
        self == CoState::Done || self == CoState::Aborted
    }

    /// The state after `event`, if the event can happen in this state.
    pub open spec fn spec_next(self, event: CoEvent) -> Option<CoState> {
        match (self, event) {
            (CoState::Created, CoEvent::Enqueue) => Some(CoState::Ready),
            (CoState::Ready, CoEvent::Resume) => Some(CoState::Running),
            (CoState::Running, CoEvent::Yield) => Some(CoState::Ready),
            (CoState::Running, CoEvent::Park) => Some(CoState::Parked),
            (CoState::Parked, CoEvent::Wake) => Some(CoState::Ready),
            _ => None,
        }
    }

    pub fn next(self, event: CoEvent) -> (next: Option<CoState>)
        ensures
            next == self.spec_next(event),
    {
        match (self, event) {
            (CoState::Created, CoEvent::Enqueue) => Some(CoState::Ready),
            (CoState::Ready, CoEvent::Resume) => Some(CoState::Running),
            (CoState::Running, CoEvent::Yield) => Some(CoState::Ready),
            (CoState::Running, CoEvent::Park) => Some(CoState::Parked),
            (CoState::Parked, CoEvent::Wake) => Some(CoState::Ready),
            _ => None,
        }
    }
}

/// Why a join brought no value.
#[derive(Clone, Copy, PartialEq, Eq, Structural, Debug)]
pub enum JoinError {
    /// The entry of the coroutine panicked.
    Panicked,
    /// The coroutine was cancelled.
    Cancelled,
}

/// A coroutine as plain values.
pub struct CoroutineState<T> {
    pub id: u64,
    pub state: CoState,
    /// The value that the entry returned, until the join takes it.
    pub result: Option<T>,
    /// The slot in which the joiner waits.
    pub joiner: ParkState,
}

impl<T> CoroutineState<T> {
    /// What a join finds once the coroutine has ended: the value that the
    /// entry returned, `Panicked` if it ended without one, `Cancelled` if
    /// it was aborted.
    pub open spec fn outcome(self) -> Result<T, JoinError> {
        if self.state == CoState::Aborted {
            Err(JoinError::Cancelled)
        } else {
            match self.result {
                Some(v) => Ok(v),
                None => Err(JoinError::Panicked),
            }
        }
    }
}

/// One coroutine.
pub struct Coroutine<T> {
    id: u64,
    state: CoState,
    result: Option<T>,
    joiner: Parker,
}

impl<T> View for Coroutine<T> {
    type V = CoroutineState<T>;

    closed spec fn view(&self) -> CoroutineState<T> {
        CoroutineState {
            id: self.id,
            state: self.state,
            result: self.result,
            joiner: self.joiner@,
        }
    }
}

impl<T> Coroutine<T> {
    /// A coroutine that was created and not queued yet.
    pub fn new(id: u64) -> (co: Coroutine<T>)
        ensures
            co@ == (CoroutineState::<T> {
                id,
                state: CoState::Created,
                result: None,
                joiner: ParkState::Empty,
            }),
    {
        Coroutine { id, state: CoState::Created, result: None, joiner: Parker::new() }
    }

    pub fn id(&self) -> (id: u64)
        ensures
            id == self@.id,
    {
        self.id
    }

    pub fn state(&self) -> (state: CoState)
        ensures
            state == self@.state,
    {
        self.state
    }

    /// Whether the coroutine has ended, so that a join will not wait.
    pub fn is_finished(&self) -> (b: bool)
        ensures
            b == self@.state.is_terminal(),
    {
        match self.state {
            CoState::Done => true,
            CoState::Aborted => true,
            _ => false,
        }
    }

    /// Takes the coroutine through `event`. An event that cannot happen
    /// in its state changes nothing, and the answer is `false`.
    pub fn advance(&mut self, event: CoEvent) -> (moved: bool)
        ensures
            moved == (old(self)@.state.spec_next(event) is Some),
            final(self)@ == (CoroutineState {
                state: match old(self)@.state.spec_next(event) {
                    Some(s) => s,
                    None => old(self)@.state,
                },
                ..old(self)@
            }),
    {
        match self.state.next(event) {
            Some(s) => {
                self.state = s;
                true
            },
            None => false,
        }
    }

    /// The entry of the running coroutine is over: it returned `value`, or
    /// it panicked and there is none. The coroutine is done, the value is
    /// kept for the join, and the answer names the joiner to wake. On a
    /// coroutine that is not running nothing happens.
    pub fn finish(&mut self, value: Option<T>) -> (woken: Option<u64>)
        ensures
            old(self)@.state == CoState::Running ==> woken == old(self)@.joiner.woken_by_unpark()
                && final(self)@ == (CoroutineState {
                state: CoState::Done,
                result: value,
                joiner: old(self)@.joiner.after_unpark(),
                ..old(self)@
            }),
            old(self)@.state != CoState::Running ==> woken is None && final(self)@ == old(self)@,
    {
        match self.state {
            CoState::Running => {
                self.state = CoState::Done;
                self.result = value;
                self.joiner.unpark()
            },
            _ => None,
        }
    }

    /// The running coroutine saw its cancellation and unwinds: it is
    /// aborted, and the answer names the joiner to wake. On a coroutine
    /// that is not running nothing happens.
    pub fn abort(&mut self) -> (woken: Option<u64>)
        ensures
            old(self)@.state == CoState::Running ==> woken == old(self)@.joiner.woken_by_unpark()
                && final(self)@ == (CoroutineState {
                state: CoState::Aborted,
                joiner: old(self)@.joiner.after_unpark(),
                ..old(self)@
            }),
            old(self)@.state != CoState::Running ==> woken is None && final(self)@ == old(self)@,
    {
        match self.state {
            CoState::Running => {
                self.state = CoState::Aborted;
                self.joiner.unpark()
            },
            _ => None,
        }
    }

    /// The caller `joiner` wants the result. It must suspend exactly when
    /// the coroutine has not ended and the slot took the caller.
    pub fn wait(&mut self, joiner: u64) -> (step: ParkStep)
        ensures
            old(self)@.state.is_terminal() ==> step == ParkStep::Proceed && final(self)@ == old(
                self,
            )@,
            !old(self)@.state.is_terminal() ==> final(self)@ == (CoroutineState {
                joiner: old(self)@.joiner.after_park(joiner),
                ..old(self)@
            }) && step == if old(self)@.joiner == ParkState::Empty {
                ParkStep::Suspend
            } else {
                ParkStep::Proceed
            },
    {
        if self.is_finished() {
            ParkStep::Proceed
        } else {
            self.joiner.park(joiner)
        }
    }

    /// Ends the join on a coroutine that has ended, see
    /// [`CoroutineState::outcome`].
    pub fn join(self) -> (result: Result<T, JoinError>)
        requires
            self@.state.is_terminal(),
        ensures
            result == self@.outcome(),
    {
        match self.state {
            CoState::Aborted => Err(JoinError::Cancelled),
            _ => match self.result {
                Some(v) => Ok(v),
                None => Err(JoinError::Panicked),
            },
        }
    }
}

/// The ends are final: nothing happens to a coroutine that is done or
/// aborted, and only a wakeup happens to one that is parked.
pub proof fn lemma_lifecycle(s: CoState, event: CoEvent)
    ensures
        s.is_terminal() ==> s.spec_next(event) is None,
        s == CoState::Parked && s.spec_next(event) is Some ==> event == CoEvent::Wake,
        s.spec_next(event) == Some(CoState::Running) ==> s == CoState::Ready,
        s.spec_next(event) is Some ==> !s.spec_next(event).unwrap().is_terminal(),
{
}

/// A coroutine that panics ends as any other: its joiner is woken and
/// finds the panic, not a value.
pub proof fn lemma_panic_reaches_joiner<T>(co: CoroutineState<T>, joiner: u64)
    requires
        co.state == CoState::Running,
        co.joiner == ParkState::Parked(joiner),
    ensures
        co.joiner.woken_by_unpark() == Some(joiner),
        (CoroutineState::<T> { state: CoState::Done, result: None, ..co }).outcome() == Err::<
            T,
            JoinError,
        >(JoinError::Panicked),
{
}

} // verus!
