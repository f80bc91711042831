//! Receiving one datagram through a completion port.

use vstd::prelude::*;
use std::time::Duration;
use crate::addr::SocketAddr;
use crate::cancel::{CancelState, CancelToken, IoRef};
use crate::completion::{EventData, EventState};
use crate::error::IoError;
use crate::event_source::Subscription;

verus! {

/// What the scheduler does after the receive was handed to the system.
#[derive(Clone, Copy, PartialEq, Eq, Structural, Debug)]
pub struct Submitted {
    /// Put this coroutine back on a ready queue at once.
    pub wake: Option<u64>,
    /// Ask the system to abort the pending operation.
    pub abort: bool,
}

/// A receive as plain values.
pub struct RecvState {
    pub io: EventState,
    pub timeout: Option<Duration>,
}

impl RecvState {
    /// The hand-over of the suspended coroutine `co`, before the receive
    /// is submitted. A free record takes the coroutine, and the answer
    /// asks for the timer of the receive. A record that holds a coroutine
    /// already refuses the new one, which is woken at once.
    pub open spec fn subscribed(self, co: u64) -> (RecvState, Subscription) {
        if self.io.co is None {
            (
                RecvState { io: EventState { co: Some(co), ..self.io }, ..self },
                Subscription { timer: self.timeout, wake: None },
            )
        } else {
            (self, Subscription { timer: None, wake: Some(co) })
        }
    }

    /// The receive after its overlapped call returned `outcome`. A call
    /// that failed never completes: its error is recorded and the parked
    /// coroutine woken at once. After a call that went through, the token
    /// is told where its owner waits, and only then looked at: if it is
    /// set already the cancel is taken here, and the pending operation is
    /// to be aborted.
    pub open spec fn submitted(self, outcome: Result<(), IoError>, token: CancelState) -> (
        RecvState,
        CancelState,
        Submitted,
    ) {
        match outcome {
            Err(e) => (
                RecvState {
                    io: EventState { co: None, complete: true, error: Some(e), ..self.io },
                    ..self
                },
                token,
                Submitted { wake: self.io.co, abort: false },
            ),
            Ok(_) => if token.cancelled {
                (self, token.after_cancel(), Submitted { wake: None, abort: self.io.pending() })
            } else {
                (
                    self,
                    CancelState { io: Some(IoRef::Overlapped { handle: self.io.handle }), ..token },
                    Submitted { wake: None, abort: false },
                )
            },
        }
    }

    /// The result of the receive: the error that the record holds for the
    /// coroutine, else the number of bytes with the sender's address, else
    /// `NoRemoteAddress` if the system gave no usable address.
    pub open spec fn done(self, addr: Option<SocketAddr>, token: CancelState) -> Result<
        (usize, SocketAddr),
        IoError,
    > {
        match self.io.result(token.cancelled) {
            Err(e) => Err(e),
            Ok(size) => match addr {
                Some(a) => Ok((size, a)),
                None => Err(IoError::NoRemoteAddress),
            },
        }
    }
}

/// One receive on a datagram socket.
pub struct UdpRecvFrom {
    io_data: EventData,
    timeout: Option<Duration>,
}

impl View for UdpRecvFrom {
    type V = RecvState;

    closed spec fn view(&self) -> RecvState {
        RecvState { io: self.io_data@, timeout: self.timeout }
    }
}

impl UdpRecvFrom {
    /// A receive on the socket `handle`, with the socket's read timeout.
    pub fn new(handle: usize, read_timeout: Option<Duration>) -> (op: UdpRecvFrom)
        ensures
            op@ == (RecvState { io: EventState::fresh(handle), timeout: read_timeout }),
    {
        UdpRecvFrom { io_data: EventData::new(handle), timeout: read_timeout }
    }

    /// The record of the operation.
    pub fn io_data(&self) -> (io: &EventData)
        ensures
            io@ == self@.io,
    {
        &self.io_data
    }

    /// The reactor's and the timer's way to the record.
    pub fn io_data_mut(&mut self) -> (io: &mut EventData)
        ensures
            io@ == old(self)@.io,
            final(self)@ == (RecvState { io: final(io)@, ..old(self)@ }),
    {
        &mut self.io_data
    }

    /// Hands the suspended coroutine `co` to the operation, which the
    /// caller submits next, see [`RecvState::subscribed`]. Afterwards `co`
    /// is either parked on the record or named in the answer as woken.
    pub fn subscribe(&mut self, co: u64) -> (sub: Subscription)
        ensures
            (final(self)@, sub) == old(self)@.subscribed(co),
            (sub.wake == Some(co)) != (old(self)@.io.co is None && final(self)@.io.co == Some(co)),
            sub.wake is None || sub.wake == Some(co),
    {
        if self.io_data.park(co) {
            Subscription { timer: self.timeout, wake: None }
        } else {
            Subscription { timer: None, wake: Some(co) }
        }
    }

    /// The step after the overlapped call returned, see
    /// [`RecvState::submitted`].
    pub fn submitted(&mut self, outcome: Result<(), IoError>, token: &mut CancelToken) -> (next:
        Submitted)
        ensures
            (final(self)@, final(token)@, next) == old(self)@.submitted(outcome, old(token)@),
    {
        match outcome {
            Err(e) => {
                let wake = self.io_data.take_co();
                self.io_data.fail(e);
                Submitted { wake, abort: false }
            },
            Ok(_) => {
                token.set_overlapped(self.io_data.handle());
                if token.is_canceled() {
                    let _ = token.cancel();
                    Submitted { wake: None, abort: self.io_data.cancel() }
                } else {
                    Submitted { wake: None, abort: false }
                }
            },
        }
    }

    /// The step of a cancel whose token pointed at this receive. The
    /// answer says whether to ask the system to abort it: exactly when its
    /// coroutine still waits for the completion.
    pub fn cancel(&self) -> (abort: bool)
        ensures
            abort == self@.io.pending(),
    {
        self.io_data.cancel()
    }

    /// Ends the receive when its coroutine runs again. `addr` is the
    /// sender's address as the system wrote it, if it is usable.
    pub fn done(self, addr: Option<SocketAddr>, token: &CancelToken) -> (result: Result<
        (usize, SocketAddr),
        IoError,
    >)
        ensures
            result == self@.done(addr, token@),
    {
        match self.io_data.result(token.is_canceled()) {
            Err(e) => Err(e),
            Ok(size) => match addr {
                Some(a) => Ok((size, a)),
                None => Err(IoError::NoRemoteAddress),
            },
        }
    }
}

/// A cancel unsticks a receive whenever it comes. If the token is set
/// before the receive is submitted, the step after the submission asks
/// for the abort. If it is set afterwards, the token hands out the
/// receive, and the step of the cancel on it asks for the abort. Either
/// way the completion of the aborted operation wakes the coroutine, which
/// then finds `Cancelled`.
pub proof fn lemma_cancel_reaches_receive(
    op: RecvState,
    co: u64,
    token: CancelState,
    status: Result<usize, IoError>,
    addr: Option<SocketAddr>,
)
    requires
        op.io.co == Some(co),
        !op.io.complete,
    ensures
        token.cancelled ==> op.submitted(Ok(()), token).2.abort,
        !token.cancelled ==> op.submitted(Ok(()), token).1.io == Some(
            IoRef::Overlapped { handle: op.io.handle },
        ) && op.submitted(Ok(()), token).0.io.pending(),
        op.submitted(Ok(()), token).1.after_cancel().cancelled,
        op.submitted(Ok(()), token).0.io.after_complete(status).co is None,
        (RecvState { io: op.io.after_complete(status), ..op }).done(
            addr,
            op.submitted(Ok(()), token).1.after_cancel(),
        ) == Err::<(usize, SocketAddr), IoError>(IoError::Cancelled),
{
}

/// A second coroutine handed to a receive that holds one is not lost: it
/// is woken at once, and the first stays parked.
pub proof fn lemma_taken_receive_refuses(op: RecvState, first: u64, second: u64)
    requires
        op.io.co == Some(first),
    ensures
        op.subscribed(second).1.wake == Some(second),
        op.subscribed(second).0 == op,
{
}

} // verus!
