//! The parker: a reusable one-shot wait for one caller, woken by `unpark`
//! or by its deadline, whichever takes the slot first.

use vstd::prelude::*;

verus! {

/// The three states of the slot.
#[derive(Clone, Copy, PartialEq, Eq, Structural, Debug)]
pub enum ParkState {
    /// Nobody waits and no wakeup is pending.
    Empty,
    /// The caller with this id waits.
    Parked(u64),
    /// A wakeup was given and not yet consumed.
    Notified,
}

/// What a caller that asked to park does.
#[derive(Clone, Copy, PartialEq, Eq, Structural, Debug)]
pub enum ParkStep {
    /// It is in the slot: suspend until woken.
    Suspend,
    /// A wakeup was pending, or the slot is taken: go on without waiting.
    Proceed,
}

impl ParkState {
    /// The slot after caller `id` asked to park: an empty slot takes it, a
    /// pending wakeup is consumed, a taken slot stays as it is.
    pub open spec fn after_park(self, id: u64) -> ParkState {
        match self {
            ParkState::Empty => ParkState::Parked(id),
            ParkState::Notified => ParkState::Empty,
            ParkState::Parked(other) => ParkState::Parked(other),
        }
    }

    /// The slot after an `unpark`: notified, whatever it was.
    pub open spec fn after_unpark(self) -> ParkState {
        ParkState::Notified
    }

    /// The caller that an `unpark` wakes: the parked one, if one is.
    pub open spec fn woken_by_unpark(self) -> Option<u64> {
        match self {
            ParkState::Parked(id) => Some(id),
            _ => None,
        }
    }

    /// Whether the deadline of caller `id` finds it still parked.
    pub open spec fn expires(self, id: u64) -> bool {
        self == ParkState::Parked(id)
    }

    /// The slot after the deadline of caller `id` passed: emptied if the
    /// caller was still parked, else as it was.
    pub open spec fn after_timeout(self, id: u64) -> ParkState {
        if self.expires(id) {
            ParkState::Empty
        } else {
            self
        }
    }
}

/// The wait slot of one lock, condition, channel end or join.
pub struct Parker {
    state: ParkState,
}

impl View for Parker {
    type V = ParkState;

    closed spec fn view(&self) -> ParkState {
        self.state
    }
}

impl Parker {
    pub fn new() -> (parker: Parker)
        ensures
            parker@ == ParkState::Empty,
    {
        Parker { state: ParkState::Empty }
    }

    /// A copy of the slot's state.
    pub fn state(&self) -> (s: ParkState)
        ensures
            s == self@,
    {
        self.state
    }

    /// Caller `id` asks to wait. It must suspend exactly when the slot was
    /// empty and now holds it.
    pub fn park(&mut self, id: u64) -> (step: ParkStep)
        ensures
            final(self)@ == old(self)@.after_park(id),
            step == if old(self)@ == ParkState::Empty {
                ParkStep::Suspend
            } else {
                ParkStep::Proceed
            },
    {
        match self.state {
            ParkState::Empty => {
                self.state = ParkState::Parked(id);
                ParkStep::Suspend
            },
            ParkState::Notified => {
                self.state = ParkState::Empty;
                ParkStep::Proceed
            },
            ParkState::Parked(_) => ParkStep::Proceed,
        }
    }

    /// Gives a wakeup. The answer is the caller to make ready: the one
    /// that was parked. With nobody parked the wakeup stays pending for
    /// the next `park`.
    pub fn unpark(&mut self) -> (woken: Option<u64>)
        ensures
            woken == old(self)@.woken_by_unpark(),
            final(self)@ == old(self)@.after_unpark(),
    {
        let woken = match self.state {
            ParkState::Parked(id) => Some(id),
            _ => None,
        };
        self.state = ParkState::Notified;
        woken
    }

    /// The deadline of caller `id` passed. The answer says whether the
    /// deadline wakes the caller: only if it was still parked.
    pub fn timeout(&mut self, id: u64) -> (expired: bool)
        ensures
            expired == old(self)@.expires(id),
            final(self)@ == old(self)@.after_timeout(id),
    {
        match self.state {
            ParkState::Parked(other) => {
                if other == id {
                    self.state = ParkState::Empty;
                    true
                } else {
                    false
                }
            },
            _ => false,
        }
    }

    /// The woken caller runs again and empties the slot for its next wait.
    /// The answer says whether it was woken by an `unpark` rather than by
    /// its deadline.
    pub fn resume(&mut self) -> (notified: bool)
        ensures
            notified == (old(self)@ == ParkState::Notified),
            final(self)@ == if old(self)@ == ParkState::Notified {
                ParkState::Empty
            } else {
                old(self)@
            },
    {
        match self.state {
            ParkState::Notified => {
                self.state = ParkState::Empty;
                true
            },
            _ => false,
        }
    }
}

/// An `unpark` and a deadline that race for one parked caller: exactly
/// one of them wakes it, the one that comes first.
pub proof fn lemma_unpark_timeout_race(id: u64)
    ensures
        ({
            let s = ParkState::Parked(id);
            &&& s.woken_by_unpark() == Some(id)
            &&& !s.after_unpark().expires(id)
            &&& s.expires(id)
            &&& s.after_timeout(id).woken_by_unpark() is None
        }),
{
}

/// A second `unpark` wakes nobody: a caller is made ready once.
pub proof fn lemma_unpark_wakes_once(s: ParkState)
    ensures
        s.after_unpark().woken_by_unpark() is None,
        s.after_unpark().after_unpark() == s.after_unpark(),
{
}

/// A wakeup given before the caller parks is not lost: the caller does
/// not wait, and the slot is empty again afterwards.
pub proof fn lemma_wakeup_before_park(id: u64)
    ensures
        ParkState::Empty.after_unpark().after_park(id) == ParkState::Empty,
        ParkState::Empty.after_unpark() != ParkState::Empty,
{
}

} // verus!
