//! Cooperative cancellation: a token that any task may set, observed by the
//! owner at safepoints and able to unstick the I/O it is parked on.

use vstd::prelude::*;
use crate::error::IoError;
use crate::io_data::{Direction, IoData, IoState};

verus! {

/// What a cancel has to unstick: where the owner of a token waits.
#[derive(Clone, Copy, PartialEq, Eq, Structural, Debug)]
pub enum IoRef {
    /// On one side of the registration record of a descriptor.
    Record { fd: i32, dir: Direction },
    /// On the overlapped operation that is pending on a handle.
    Overlapped { handle: usize },
}

/// What a token holds.
#[derive(Clone, Copy, PartialEq, Eq, Structural, Debug)]
pub struct CancelState {
    /// The token was set.
    pub cancelled: bool,
    /// Where the owner is parked.
    pub io: Option<IoRef>,
}

impl CancelState {
    /// The token after a cancel: set, and no longer pointing anywhere.
    pub open spec fn after_cancel(self) -> CancelState {
        CancelState { cancelled: true, io: None }
    }
}

/// The cancellation token of one coroutine.
pub struct CancelToken {
    state: CancelState,
}

impl View for CancelToken {
    type V = CancelState;

    closed spec fn view(&self) -> CancelState {
        self.state
    }
}

impl CancelToken {
    pub fn new() -> (token: CancelToken)
        ensures
            token@ == (CancelState { cancelled: false, io: None }),
    {
        CancelToken { state: CancelState { cancelled: false, io: None } }
    }

    pub fn is_canceled(&self) -> (b: bool)
        ensures
            b == self@.cancelled,
    {
        self.state.cancelled
    }

    /// Where the owner is parked, if it told the token.
    pub fn io(&self) -> (io: Option<IoRef>)
        ensures
            io == self@.io,
    {
        self.state.io
    }

    /// Records that the owner is parked on side `dir` of the record of
    /// `fd`, so that a cancel can wake it.
    pub fn set_io(&mut self, fd: i32, dir: Direction)
        ensures
            final(self)@ == (CancelState { io: Some(IoRef::Record { fd, dir }), ..old(self)@ }),
    {
        self.state.io = Some(IoRef::Record { fd, dir });
    }

    /// Records that the owner waits for the overlapped operation pending
    /// on `handle`, so that a cancel can have it aborted.
    pub fn set_overlapped(&mut self, handle: usize)
        ensures
            final(self)@ == (CancelState { io: Some(IoRef::Overlapped { handle }), ..old(self)@ }),
    {
        self.state.io = Some(IoRef::Overlapped { handle });
    }

    /// Forgets where the owner was parked, once it runs again.
    pub fn clear_io(&mut self)
        ensures
            final(self)@ == (CancelState { io: None, ..old(self)@ }),
    {
        self.state.io = None;
    }

    /// Sets the token. The answer is what to unstick, handed out once: the
    /// token forgets it, so a second cancel finds the token set and nothing
    /// left to do.
    pub fn cancel(&mut self) -> (target: Option<IoRef>)
        ensures
            target == old(self)@.io,
            final(self)@ == old(self)@.after_cancel(),
    {
        let target = self.state.io;
        self.state.cancelled = true;
        self.state.io = None;
        target
    }
}

/// What the safepoint of an operation on side `dir` finds, in the order in
/// which it looks: a set token, then the timer of that side having won the
/// wakeup.
pub open spec fn spec_io_result(io: IoState, dir: Direction, token: CancelState) -> Result<
    (),
    IoError,
> {
    if token.cancelled {
        Err(IoError::Cancelled)
    } else if io.timed_out(dir) {
        Err(IoError::TimedOut)
    } else {
        Ok(())
    }
}

/// The record after a safepoint: a timed-out mark that was reported is
/// cleared, everything else stays.
pub open spec fn spec_io_after_result(io: IoState, dir: Direction, token: CancelState) -> IoState {
    if !token.cancelled && io.timed_out(dir) {
        io.with_timed_out(dir, false)
    } else {
        io
    }
}

/// The safepoint that every operation passes when its coroutine runs again
/// and before it returns: it fails with `Cancelled` if the token is set,
/// else with `TimedOut` if the timer of the operation's side woke the
/// coroutine, and lets the operation go on otherwise.
pub fn co_io_result(io: &mut IoData, dir: Direction, token: &CancelToken) -> (result: Result<
    (),
    IoError,
>)
    ensures
        result == spec_io_result(old(io)@, dir, token@),
        final(io)@ == spec_io_after_result(old(io)@, dir, token@),
{
    if token.is_canceled() {
        Err(IoError::Cancelled)
    } else if io.is_timed_out(dir) {
        let _ = io.take_timed_out(dir);
        Err(IoError::TimedOut)
    } else {
        Ok(())
    }
}

/// Cancelling twice is cancelling once: the token is the same after the
/// second cancel as after the first, and the second hands out no record to
/// unstick.
pub proof fn lemma_cancel_idempotent(token: CancelState)
    ensures
        token.after_cancel().after_cancel() == token.after_cancel(),
        token.after_cancel().cancelled,
        token.after_cancel().io is None,
{
}

} // verus!
