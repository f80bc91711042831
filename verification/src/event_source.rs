//! The protocol that every suspending I/O operation follows on a readiness
//! reactor: try the system call without blocking; if it cannot proceed,
//! park the coroutine and only then look at the marks again, so that no
//! wakeup is lost; after each wakeup pass the safepoint and try again.

use vstd::prelude::*;
use std::time::Duration;
use crate::cancel::{co_io_result, spec_io_after_result, spec_io_result, CancelState, CancelToken, IoRef};
use crate::error::IoError;
use crate::io_data::{Direction, IoData, IoState};

verus! {

/// What the scheduler does after it has subscribed a coroutine.
#[derive(Clone, Copy, PartialEq, Eq, Debug)]
pub struct Subscription {
    /// Arm a timer of this length on the record.
    pub timer: Option<Duration>,
    /// Put this coroutine back on a ready queue at once.
    pub wake: Option<u64>,
}

/// What an operation does when its coroutine runs.
#[derive(Clone, Copy, PartialEq, Eq, Structural, Debug)]
pub enum PollStep {
    /// The operation is over with this error.
    Failed(IoError),
    /// Make the system call and report its outcome.
    Attempt,
    /// Suspend the coroutine on the operation and ask again when it runs.
    Yield,
}

/// What an operation does once a system call has returned.
#[derive(PartialEq, Eq, Debug)]
pub enum Step<T> {
    /// The operation is over with this result.
    Return(Result<T, IoError>),
    /// Make the system call again and report its outcome.
    Attempt,
    /// Suspend the coroutine on the operation and ask again when it runs.
    Yield,
}

/// The step taken whenever the coroutine of an operation on side `dir`
/// runs: pass the safepoint; then make the system call if the side is not
/// waiting or was reported ready, clearing both marks first; else
/// acknowledge any pending event and wait.
pub open spec fn spec_poll(io: IoState, dir: Direction, token: CancelState) -> (IoState, PollStep) {
    match spec_io_result(io, dir, token) {
        Err(e) => (spec_io_after_result(io, dir, token), PollStep::Failed(e)),
        Ok(_) => if !io.waiting(dir) || io.ready(dir) {
            (io.after_reset(dir), PollStep::Attempt)
        } else {
            (io.without_event(dir), PollStep::Yield)
        },
    }
}

/// The step taken when a system call on side `dir` could not proceed: the
/// side is marked as waiting; if an event arrived during the call the
/// operation goes on as [`spec_poll`] says, else it waits.
pub open spec fn spec_blocked(io: IoState, dir: Direction, token: CancelState) -> (
    IoState,
    PollStep,
) {
    let waiting = io.with_waiting(dir, true);
    if waiting.event(dir) {
        spec_poll(waiting.without_event(dir), dir, token)
    } else {
        (waiting, PollStep::Yield)
    }
}

/// A poll step as the step of an operation with results of type `T`.
pub open spec fn as_step<T>(step: PollStep) -> Step<T> {
    match step {
        PollStep::Failed(e) => Step::Return(Err(e)),
        PollStep::Attempt => Step::Attempt,
        PollStep::Yield => Step::Yield,
    }
}

/// The step taken on the outcome of a system call: `WouldBlock` is never
/// handed on but waited out as [`spec_blocked`] says; every other outcome,
/// success or error, ends the operation and is its result.
pub open spec fn spec_attempted<T>(
    io: IoState,
    dir: Direction,
    outcome: Result<T, IoError>,
    token: CancelState,
) -> (IoState, Step<T>) {
    if outcome == Err::<T, IoError>(IoError::WouldBlock) {
        (spec_blocked(io, dir, token).0, as_step(spec_blocked(io, dir, token).1))
    } else {
        (io, Step::Return(outcome))
    }
}

/// The hand-over of the suspended coroutine `co` to the record, for an
/// operation on side `dir` with the given timeout. A taken slot refuses the
/// coroutine, which is woken at once. Otherwise the coroutine is parked
/// first and the marks are looked at afterwards: if the side is ready, or
/// the token is set, the coroutine is taken back and woken at once; else it
/// stays parked and the token remembers where.
pub open spec fn spec_subscribe(
    io: IoState,
    dir: Direction,
    co: u64,
    token: CancelState,
    timeout: Option<Duration>,
) -> (IoState, CancelState, Subscription) {
    if io.parked(dir) is Some {
        (io, token, Subscription { timer: None, wake: Some(co) })
    } else if io.ready(dir) {
        (io, token, Subscription { timer: timeout, wake: Some(co) })
    } else if token.cancelled {
        (io.after_cancel(dir), token.after_cancel(), Subscription { timer: timeout, wake: Some(co) })
    } else {
        (
            io.with_parked(dir, Some(co)),
            CancelState { io: Some(IoRef::Record { fd: io.fd, dir }), ..token },
            Subscription { timer: timeout, wake: None },
        )
    }
}

/// One step of an operation on side `dir`, taken when its coroutine runs.
pub fn poll(io: &mut IoData, dir: Direction, token: &CancelToken) -> (step: PollStep)
    ensures
        (final(io)@, step) == spec_poll(old(io)@, dir, token@),
{
    match co_io_result(io, dir, token) {
        Err(e) => PollStep::Failed(e),
        Ok(_) => {
            let waiting = match dir {
                Direction::Read => io.is_read_wait(),
                Direction::Write => io.is_write_wait(),
            };
            if !waiting || io.is_ready(dir) {
                io.reset(dir);
                PollStep::Attempt
            } else {
                let _ = io.take_event(dir);
                PollStep::Yield
            }
        },
    }
}

/// One step of an operation on side `dir`, taken when its system call
/// could not proceed.
pub fn blocked(io: &mut IoData, dir: Direction, token: &CancelToken) -> (step: PollStep)
    ensures
        (final(io)@, step) == spec_blocked(old(io)@, dir, token@),
{
    io.set_wait(dir);
    if io.take_event(dir) {
        poll(io, dir, token)
    } else {
        PollStep::Yield
    }
}

/// One step of an operation on side `dir`, taken on the outcome of its
/// system call.
pub fn attempted<T>(
    io: &mut IoData,
    dir: Direction,
    outcome: Result<T, IoError>,
    token: &CancelToken,
) -> (step: Step<T>)
    ensures
        (final(io)@, step) == spec_attempted(old(io)@, dir, outcome, token@),
{
    let would_block = match &outcome {
        Err(e) => e.is_would_block(),
        Ok(_) => false,
    };
    if would_block {
        match blocked(io, dir, token) {
            PollStep::Failed(e) => Step::Return(Err(e)),
            PollStep::Attempt => Step::Attempt,
            PollStep::Yield => Step::Yield,
        }
    } else {
        Step::Return(outcome)
    }
}

/// Hands the suspended coroutine `co` to the record, see
/// [`spec_subscribe`]. Afterwards `co` is either parked on side `dir` or
/// named in the answer as woken, never both and never neither.
pub fn subscribe(
    io: &mut IoData,
    dir: Direction,
    co: u64,
    token: &mut CancelToken,
    timeout: Option<Duration>,
) -> (sub: Subscription)
    ensures
        (final(io)@, final(token)@, sub) == spec_subscribe(
            old(io)@,
            dir,
            co,
            old(token)@,
            timeout,
        ),
        sub.wake is None || sub.wake == Some(co),
        old(io)@.parked(dir) is None ==> ((sub.wake == Some(co)) != (final(io)@.parked(dir)
            == Some(co))),
{
    if !io.park(dir, co) {
        return Subscription { timer: None, wake: Some(co) };
    }
    if io.is_ready(dir) {
        let wake = io.schedule(dir);
        return Subscription { timer: timeout, wake };
    }
    token.set_io(io.fd(), dir);
    if token.is_canceled() {
        let _ = token.cancel();
        let wake = io.cancel(dir);
        return Subscription { timer: timeout, wake };
    }
    Subscription { timer: timeout, wake: None }
}

/// `WouldBlock` never leaves an operation: whatever the record and the
/// token hold, the step taken on it is not a return of `WouldBlock`.
pub proof fn lemma_would_block_is_absorbed<T>(io: IoState, dir: Direction, token: CancelState)
    ensures
        spec_attempted::<T>(io, dir, Err(IoError::WouldBlock), token).1 != Step::<T>::Return(
            Err(IoError::WouldBlock),
        ),
{
}

/// Every outcome but `WouldBlock` ends the operation at once and is its
/// result, with the record untouched: an error of a closed socket is
/// returned and not waited on, and a read of zero bytes is returned as
/// zero bytes.
pub proof fn lemma_final_outcomes_return<T>(
    io: IoState,
    dir: Direction,
    outcome: Result<T, IoError>,
    token: CancelState,
)
    requires
        outcome != Err::<T, IoError>(IoError::WouldBlock),
    ensures
        spec_attempted(io, dir, outcome, token) == (io, Step::Return(outcome)),
{
}

/// An event that arrives while the coroutine is parked is not lost: the
/// delivery wakes the coroutine, and unless it was cancelled or timed out
/// meanwhile its next step is a new system call.
pub proof fn lemma_event_after_park_retries(
    io: IoState,
    dir: Direction,
    co: u64,
    token: CancelState,
)
    requires
        io.parked(dir) == Some(co),
        !token.cancelled,
        !io.timed_out(dir),
    ensures
        ({
            let readable = dir == Direction::Read;
            let writable = dir == Direction::Write;
            let woken = io.woken_by_deliver(readable, writable);
            &&& (if readable {
                woken.0
            } else {
                woken.1
            }) == Some(co)
            &&& spec_poll(io.after_deliver(readable, writable), dir, token).1 == PollStep::Attempt
        }),
{
}

/// An event that arrives before the coroutine is parked is not lost
/// either: the hand-over sees the mark and wakes the coroutine at once.
pub proof fn lemma_event_before_park_wakes(
    io: IoState,
    dir: Direction,
    co: u64,
    token: CancelState,
    timeout: Option<Duration>,
)
    ensures
        spec_subscribe(
            io.after_deliver(dir == Direction::Read, dir == Direction::Write),
            dir,
            co,
            token,
            timeout,
        ).2.wake == Some(co),
{
}

/// A coroutine whose token is set cannot be parked: the hand-over wakes it
/// at once, and the safepoint it then passes fails with `Cancelled`.
pub proof fn lemma_cancelled_is_not_parked(
    io: IoState,
    dir: Direction,
    co: u64,
    token: CancelState,
    timeout: Option<Duration>,
)
    requires
        token.cancelled,
    ensures
        spec_subscribe(io, dir, co, token, timeout).2.wake == Some(co),
        spec_subscribe(io, dir, co, token, timeout).1.cancelled,
        spec_poll(spec_subscribe(io, dir, co, token, timeout).0, dir, spec_subscribe(io, dir, co, token, timeout).1).1
            == PollStep::Failed(IoError::Cancelled),
{
}

/// A timer that wins the wakeup makes the operation on its side fail with
/// `TimedOut` at its next step, once, unless the coroutine was cancelled
/// as well. An operation on the other side goes on as if no timer had
/// fired.
pub proof fn lemma_timer_fails_operation(io: IoState, dir: Direction, co: u64, token: CancelState)
    requires
        io.parked(dir) == Some(co),
        !token.cancelled,
    ensures
        spec_poll(io.after_timer(dir), dir, token).1 == PollStep::Failed(IoError::TimedOut),
        forall|other: Direction|
            other != dir ==> #[trigger] spec_poll(io.after_timer(dir), other, token).1 == spec_poll(
                io,
                other,
                token,
            ).1,
        !spec_poll(io.after_timer(dir), dir, token).0.timed_out(dir),
{
}

} // verus!
