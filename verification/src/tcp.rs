//! Stream and listener sockets: what each holds besides the descriptor,
//! and the decisions of their blocking-looking calls. Under a coroutine a
//! socket is used in non-blocking mode and waits through the reactor; on a
//! plain thread it falls back to blocking calls.

use vstd::prelude::*;
use std::time::Duration;
use crate::addr::SocketAddr;
use crate::cancel::{CancelState, CancelToken};
use crate::connect::TcpStreamConnect;
use crate::error::IoError;
use crate::event_source::{spec_poll, spec_subscribe, PollStep, Step, Subscription};
use crate::io_data::{Direction, IoState};
use crate::reactor::{Reactor, ReactorState};

verus! {

/// How to make the next system call on a socket.
#[derive(Clone, Copy, PartialEq, Eq, Structural, Debug)]
pub struct IoPlan {
    /// Switch the socket to this mode first (`true` is non-blocking); if
    /// the switch fails, its error is the result of the call.
    pub set_nonblocking: Option<bool>,
    /// Make the call in blocking mode and return whatever it returns.
    pub blocking: bool,
}

/// The mode that a socket is in, and the mode that each caller needs.
pub struct IoContext {
    nonblocking: bool,
}

impl IoContext {
    /// Whether the socket is in non-blocking mode.
    pub closed spec fn is_nonblocking(&self) -> bool {
        self.nonblocking
    }

    /// The plan for a caller that is a coroutine (`is_coroutine`) or a
    /// plain thread, on a socket in the given mode: a coroutine needs
    /// non-blocking mode and a thread blocking mode, and the socket is
    /// switched only when its mode is the other one.
    pub open spec fn spec_plan(nonblocking: bool, is_coroutine: bool) -> IoPlan {
        IoPlan {
            set_nonblocking: if nonblocking == is_coroutine {
                None
            } else {
                Some(is_coroutine)
            },
            blocking: !is_coroutine,
        }
    }

    /// The context of a socket that is in the given mode.
    pub fn new(nonblocking: bool) -> (ctx: IoContext)
        ensures
            ctx.is_nonblocking() == nonblocking,
    {
        IoContext { nonblocking }
    }

    /// The plan for the next call, see [`IoContext::spec_plan`].
    pub fn check(&self, is_coroutine: bool) -> (plan: IoPlan)
        ensures
            plan == Self::spec_plan(self.is_nonblocking(), is_coroutine),
    {
        IoPlan {
            set_nonblocking: if self.nonblocking == is_coroutine {
                None
            } else {
                Some(is_coroutine)
            },
            blocking: !is_coroutine,
        }
    }

    /// Records that the socket was switched to the given mode.
    pub fn set_mode(&mut self, nonblocking: bool)
        ensures
            final(self).is_nonblocking() == nonblocking,
    {
        self.nonblocking = nonblocking;
    }
}

/// How `connect` goes about its work.
#[derive(Clone, Copy, PartialEq, Eq, Structural, Debug)]
pub enum ConnectPlan {
    /// On a plain thread: connect with a blocking call.
    Blocking,
    /// Under a coroutine: run a [`TcpStreamConnect`].
    Evented,
}

/// A stream socket as plain values.
pub struct StreamState {
    /// The descriptor of the socket, by which the reactor knows it.
    pub fd: i32,
    pub nonblocking: bool,
    pub read_timeout: Option<Duration>,
    pub write_timeout: Option<Duration>,
}

impl StreamState {
    /// A stream on the descriptor `fd` in the given mode, without
    /// timeouts.
    pub open spec fn fresh(fd: i32, nonblocking: bool) -> StreamState {
        StreamState { fd, nonblocking, read_timeout: None, write_timeout: None }
    }

    /// The timeout of operations on side `dir`.
    pub open spec fn timeout(self, dir: Direction) -> Option<Duration> {
        match dir {
            Direction::Read => self.read_timeout,
            Direction::Write => self.write_timeout,
        }
    }
}

/// The reactor after `fd` was registered: as before if it was known,
/// else with a fresh record for it.
pub open spec fn registered_with(reactor: ReactorState, fd: i32) -> ReactorState {
    if reactor.registered(fd) {
        reactor
    } else {
        ReactorState { records: reactor.records.push(IoState::fresh(fd)), ..reactor }
    }
}

/// A stream socket.
pub struct TcpStream {
    sys: i32,
    ctx: IoContext,
    read_timeout: Option<Duration>,
    write_timeout: Option<Duration>,
}

impl View for TcpStream {
    type V = StreamState;

    closed spec fn view(&self) -> StreamState {
        StreamState {
            fd: self.sys,
            nonblocking: self.ctx.is_nonblocking(),
            read_timeout: self.read_timeout,
            write_timeout: self.write_timeout,
        }
    }
}

impl TcpStream {
    /// The stream on a descriptor that was set to non-blocking mode. The
    /// descriptor is registered with the reactor.
    pub fn new(fd: i32, reactor: &mut Reactor) -> (stream: TcpStream)
        requires
            old(reactor)@.wf(),
        ensures
            final(reactor)@.wf(),
            final(reactor)@.registered(fd),
            final(reactor)@ == registered_with(old(reactor)@, fd),
            stream@ == StreamState::fresh(fd, true),
    {
        let _ = reactor.register(fd);
        TcpStream {
            sys: fd,
            ctx: IoContext::new(true),
            read_timeout: None,
            write_timeout: None,
        }
    }

    /// The stream on a descriptor that a blocking call connected and that
    /// is still in blocking mode. Nothing is registered.
    pub fn from_stream(fd: i32) -> (stream: TcpStream)
        ensures
            stream@ == StreamState::fresh(fd, false),
    {
        TcpStream {
            sys: fd,
            ctx: IoContext::new(false),
            read_timeout: None,
            write_timeout: None,
        }
    }

    /// The stream of a finished connect operation: on the operation's
    /// descriptor, which stays registered as it is, in non-blocking mode
    /// and without timeouts.
    pub fn from_connect(op: TcpStreamConnect) -> (stream: TcpStream)
        ensures
            stream@ == StreamState::fresh(op@.fd, true),
    {
        TcpStream {
            sys: op.fd(),
            ctx: IoContext::new(true),
            read_timeout: None,
            write_timeout: None,
        }
    }

    /// The descriptor of the socket.
    pub fn inner(&self) -> (fd: i32)
        ensures
            fd == self@.fd,
    {
        self.sys
    }

    /// How to connect: with a blocking call on a plain thread, through the
    /// reactor under a coroutine.
    pub fn connect(is_coroutine: bool) -> (plan: ConnectPlan)
        ensures
            plan == if is_coroutine {
                ConnectPlan::Evented
            } else {
                ConnectPlan::Blocking
            },
    {
        if is_coroutine {
            ConnectPlan::Evented
        } else {
            ConnectPlan::Blocking
        }
    }

    /// The stream on `fd`, a duplicate of this stream's descriptor that was
    /// set to non-blocking mode: it is registered with the reactor and has
    /// this stream's timeouts.
    pub fn try_clone(&self, fd: i32, reactor: &mut Reactor) -> (stream: TcpStream)
        requires
            old(reactor)@.wf(),
        ensures
            final(reactor)@.wf(),
            final(reactor)@.registered(fd),
            final(reactor)@ == registered_with(old(reactor)@, fd),
            stream@ == (StreamState {
                read_timeout: self@.read_timeout,
                write_timeout: self@.write_timeout,
                ..StreamState::fresh(fd, true)
            }),
    {
        let mut s = TcpStream::new(fd, reactor);
        let _ = s.set_read_timeout(self.read_timeout);
        let _ = s.set_write_timeout(self.write_timeout);
        s
    }

    /// Ends the stream: its descriptor leaves the reactor, and the answer
    /// is what its record held, so that whoever is still parked on it can
    /// be woken.
    pub fn close(self, reactor: &mut Reactor) -> (removed: Option<IoState>)
        requires
            old(reactor)@.wf(),
        ensures
            final(reactor)@.wf(),
            !final(reactor)@.registered(self@.fd),
            match removed {
                Some(io) => old(reactor)@.registered(self@.fd) && io == old(reactor)@.records[old(
                    reactor,
                )@.slot(self@.fd)] && final(reactor)@ == (ReactorState {
                    records: old(reactor)@.records.remove(old(reactor)@.slot(self@.fd)),
                    ..old(reactor)@
                }),
                None => !old(reactor)@.registered(self@.fd) && final(reactor)@ == old(reactor)@,
            },
    {
        reactor.deregister(self.sys)
    }

    pub fn set_read_timeout(&mut self, dur: Option<Duration>) -> (result: Result<(), IoError>)
        ensures
            result is Ok,
            final(self)@ == (StreamState { read_timeout: dur, ..old(self)@ }),
    {
        self.read_timeout = dur;
        Ok(())
    }

    pub fn set_write_timeout(&mut self, dur: Option<Duration>) -> (result: Result<(), IoError>)
        ensures
            result is Ok,
            final(self)@ == (StreamState { write_timeout: dur, ..old(self)@ }),
    {
        self.write_timeout = dur;
        Ok(())
    }

    pub fn read_timeout(&self) -> (result: Result<Option<Duration>, IoError>)
        ensures
            result == Ok::<Option<Duration>, IoError>(self@.read_timeout),
    {
        Ok(self.read_timeout)
    }

    pub fn write_timeout(&self) -> (result: Result<Option<Duration>, IoError>)
        ensures
            result == Ok::<Option<Duration>, IoError>(self@.write_timeout),
    {
        Ok(self.write_timeout)
    }

    /// The plan for the next read or write by a caller that is a coroutine
    /// or a plain thread.
    pub fn plan(&self, is_coroutine: bool) -> (plan: IoPlan)
        ensures
            plan == IoContext::spec_plan(self@.nonblocking, is_coroutine),
    {
        self.ctx.check(is_coroutine)
    }

    /// Records that the socket was switched to the given mode.
    pub fn set_mode(&mut self, nonblocking: bool)
        ensures
            final(self)@ == (StreamState { nonblocking, ..old(self)@ }),
    {
        self.ctx.set_mode(nonblocking);
    }

    /// The step of a read or a write under a coroutine on the outcome of
    /// its non-blocking system call: the number of bytes or the error is
    /// returned as it is, a read of zero bytes at the end of the stream
    /// too; only `WouldBlock` makes the operation wait.
    pub fn attempted(
        &self,
        reactor: &mut Reactor,
        dir: Direction,
        outcome: Result<usize, IoError>,
        token: &CancelToken,
    ) -> (step: Step<usize>)
        requires
            old(reactor)@.wf(),
        ensures
            final(reactor)@.wf(),
            (final(reactor)@, step) == old(reactor)@.op_attempted(self@.fd, dir, outcome, token@),
    {
        reactor.op_attempted(self.sys, dir, outcome, token)
    }

    /// The step of a read or a write when its coroutine runs again.
    pub fn done(&self, reactor: &mut Reactor, dir: Direction, token: &CancelToken) -> (step:
        PollStep)
        requires
            old(reactor)@.wf(),
        ensures
            final(reactor)@.wf(),
            (final(reactor)@, step) == old(reactor)@.op_poll(self@.fd, dir, token@),
    {
        reactor.op_poll(self.sys, dir, token)
    }

    /// Hands the suspended coroutine `co` of a read or a write to the
    /// reactor, with the timeout that the stream has for that side.
    pub fn subscribe(
        &self,
        reactor: &mut Reactor,
        dir: Direction,
        co: u64,
        token: &mut CancelToken,
    ) -> (sub: Subscription)
        requires
            old(reactor)@.wf(),
        ensures
            final(reactor)@.wf(),
            (final(reactor)@, final(token)@, sub) == old(reactor)@.op_subscribe(
                self@.fd,
                dir,
                co,
                old(token)@,
                self@.timeout(dir),
            ),
            sub.wake is None || sub.wake == Some(co),
    {
        let timeout = match dir {
            Direction::Read => self.read_timeout,
            Direction::Write => self.write_timeout,
        };
        reactor.op_subscribe(self.sys, dir, co, token, timeout)
    }
}

/// A listening socket as plain values.
pub struct ListenerState {
    /// The descriptor of the socket, by which the reactor knows it.
    pub fd: i32,
    pub nonblocking: bool,
}

/// A listening socket.
pub struct TcpListener {
    ctx: IoContext,
    sys: i32,
}

impl View for TcpListener {
    type V = ListenerState;

    closed spec fn view(&self) -> ListenerState {
        ListenerState { fd: self.sys, nonblocking: self.ctx.is_nonblocking() }
    }
}

/// Whether `step` is the step `model` with each stream taken by its view.
pub open spec fn accept_step_is(
    step: Step<(TcpStream, SocketAddr)>,
    model: Step<(i32, SocketAddr)>,
) -> bool {
    match (step, model) {
        (Step::Return(Ok((stream, addr))), Step::Return(Ok((fd, peer)))) => stream@
            == StreamState::fresh(fd, true) && addr == peer,
        (Step::Return(Err(e)), Step::Return(Err(m))) => e == m,
        (Step::Attempt, Step::Attempt) => true,
        (Step::Yield, Step::Yield) => true,
        _ => false,
    }
}

impl TcpListener {
    /// The listener on a descriptor that was set to non-blocking mode.
    /// The descriptor is registered with the reactor.
    pub fn new(fd: i32, reactor: &mut Reactor) -> (listener: TcpListener)
        requires
            old(reactor)@.wf(),
        ensures
            final(reactor)@.wf(),
            final(reactor)@.registered(fd),
            final(reactor)@ == registered_with(old(reactor)@, fd),
            listener@ == (ListenerState { fd, nonblocking: true }),
    {
        let _ = reactor.register(fd);
        TcpListener { ctx: IoContext::new(true), sys: fd }
    }

    /// The descriptor of the socket.
    pub fn inner(&self) -> (fd: i32)
        ensures
            fd == self@.fd,
    {
        self.sys
    }

    /// The listener on `fd`, a duplicate of this listener's descriptor that
    /// was set to non-blocking mode and is registered with the reactor.
    pub fn try_clone(&self, fd: i32, reactor: &mut Reactor) -> (listener: TcpListener)
        requires
            old(reactor)@.wf(),
        ensures
            final(reactor)@.wf(),
            final(reactor)@.registered(fd),
            final(reactor)@ == registered_with(old(reactor)@, fd),
            listener@ == (ListenerState { fd, nonblocking: true }),
    {
        TcpListener::new(fd, reactor)
    }

    /// The plan for the next accept by a caller that is a coroutine or a
    /// plain thread.
    pub fn plan(&self, is_coroutine: bool) -> (plan: IoPlan)
        ensures
            plan == IoContext::spec_plan(self@.nonblocking, is_coroutine),
    {
        self.ctx.check(is_coroutine)
    }

    /// Records that the socket was switched to the given mode.
    pub fn set_mode(&mut self, nonblocking: bool)
        ensures
            final(self)@ == (ListenerState { nonblocking, ..old(self)@ }),
    {
        self.ctx.set_mode(nonblocking);
    }

    /// The step of an accept on the outcome of its system call. For a
    /// connection the outcome holds the accepted descriptor, already set
    /// to non-blocking mode, and the peer's address: the descriptor is
    /// registered and returned as a new stream. An error is returned as it
    /// is, so an accept on a closed listener ends with that error and does
    /// not wait; only `WouldBlock` makes the accept wait, and on a
    /// listener that the reactor does not know even that ends it.
    pub fn accept(
        &self,
        reactor: &mut Reactor,
        outcome: Result<(i32, SocketAddr), IoError>,
        token: &CancelToken,
    ) -> (step: Step<(TcpStream, SocketAddr)>)
        requires
            old(reactor)@.wf(),
        ensures
            final(reactor)@.wf(),
            accept_step_is(
                step,
                old(reactor)@.op_attempted(self@.fd, Direction::Read, outcome, token@).1,
            ),
            final(reactor)@ == match old(reactor)@.op_attempted(
                self@.fd,
                Direction::Read,
                outcome,
                token@,
            ).1 {
                Step::Return(Ok((fd, _))) => registered_with(
                    old(reactor)@.op_attempted(self@.fd, Direction::Read, outcome, token@).0,
                    fd,
                ),
                _ => old(reactor)@.op_attempted(self@.fd, Direction::Read, outcome, token@).0,
            },
    {
        match reactor.op_attempted(self.sys, Direction::Read, outcome, token) {
            Step::Return(Ok((fd, addr))) => Step::Return(Ok((TcpStream::new(fd, reactor), addr))),
            Step::Return(Err(e)) => Step::Return(Err(e)),
            Step::Attempt => Step::Attempt,
            Step::Yield => Step::Yield,
        }
    }

    /// The step of an accept when its coroutine runs again.
    pub fn done(&self, reactor: &mut Reactor, token: &CancelToken) -> (step: PollStep)
        requires
            old(reactor)@.wf(),
        ensures
            final(reactor)@.wf(),
            (final(reactor)@, step) == old(reactor)@.op_poll(self@.fd, Direction::Read, token@),
    {
        reactor.op_poll(self.sys, Direction::Read, token)
    }

    /// Hands the suspended coroutine `co` of an accept to the reactor. An
    /// accept has no timeout.
    pub fn subscribe(&self, reactor: &mut Reactor, co: u64, token: &mut CancelToken) -> (sub:
        Subscription)
        requires
            old(reactor)@.wf(),
        ensures
            final(reactor)@.wf(),
            (final(reactor)@, final(token)@, sub) == old(reactor)@.op_subscribe(
                self@.fd,
                Direction::Read,
                co,
                old(token)@,
                None,
            ),
            sub.wake is None || sub.wake == Some(co),
    {
        reactor.op_subscribe(self.sys, Direction::Read, co, token, None)
    }

    /// Ends the listener: its descriptor leaves the reactor, and the
    /// answer is what its record held, so that an accept still parked on
    /// it can be woken.
    pub fn close(self, reactor: &mut Reactor) -> (removed: Option<IoState>)
        requires
            old(reactor)@.wf(),
        ensures
            final(reactor)@.wf(),
            !final(reactor)@.registered(self@.fd),
            match removed {
                Some(io) => old(reactor)@.registered(self@.fd) && io == old(reactor)@.records[old(
                    reactor,
                )@.slot(self@.fd)] && final(reactor)@ == (ReactorState {
                    records: old(reactor)@.records.remove(old(reactor)@.slot(self@.fd)),
                    ..old(reactor)@
                }),
                None => !old(reactor)@.registered(self@.fd) && final(reactor)@ == old(reactor)@,
            },
    {
        reactor.deregister(self.sys)
    }

    /// The endless sequence of the connections that the listener accepts.
    pub fn incoming(&self) -> (incoming: Incoming)
        ensures
            incoming.listener() == self@.fd,
    {
        Incoming { listener: self.sys }
    }
}

/// The connections that a listener accepts, one after the other, without
/// an end.
pub struct Incoming {
    listener: i32,
}

impl Incoming {
    /// The descriptor of the listener.
    pub closed spec fn listener(&self) -> i32 {
        self.listener
    }

    /// The descriptor of the listener to accept on.
    pub fn inner(&self) -> (fd: i32)
        ensures
            fd == self.listener(),
    {
        self.listener
    }

    /// The next item, made of the result of one accept: always an item,
    /// the stream without the peer's address, or the error.
    pub fn next(&mut self, accepted: Result<(TcpStream, SocketAddr), IoError>) -> (item: Option<
        Result<TcpStream, IoError>,
    >)
        ensures
            final(self).listener() == old(self).listener(),
            match accepted {
                Ok((stream, _)) => item == Some(Ok::<TcpStream, IoError>(stream)),
                Err(e) => item == Some(Err::<TcpStream, IoError>(e)),
            },
    {
        match accepted {
            Ok((stream, _)) => Some(Ok(stream)),
            Err(e) => Some(Err(e)),
        }
    }
}

/// Under a coroutine a socket is always used in non-blocking mode and on
/// a plain thread in blocking mode: once the planned switch is made, the
/// same kind of caller needs no further switch.
pub proof fn lemma_plan_settles(nonblocking: bool, is_coroutine: bool)
    ensures
        ({
            let plan = IoContext::spec_plan(nonblocking, is_coroutine);
            let mode = match plan.set_nonblocking {
                Some(m) => m,
                None => nonblocking,
            };
            &&& mode == is_coroutine
            &&& plan.blocking == !is_coroutine
            &&& IoContext::spec_plan(mode, is_coroutine).set_nonblocking is None
        }),
{
}

/// An accept on a listener that was closed does not hang: whatever its
/// system call returns, the accept returns, and with an error unless a
/// connection came in; it is never told to wait, and a coroutine handed
/// over for it is woken at once.
pub proof fn lemma_accept_on_closed_listener_returns(
    reactor: ReactorState,
    fd: i32,
    outcome: Result<(i32, SocketAddr), IoError>,
    token: CancelState,
)
    requires
        !reactor.registered(fd),
    ensures
        reactor.op_attempted(fd, Direction::Read, outcome, token).1 is Return,
        outcome is Err ==> reactor.op_attempted(
            fd,
            Direction::Read,
            outcome,
            token,
        ).1 matches Step::Return(Err(_)),
        reactor.op_poll(fd, Direction::Read, token).1 is Failed,
        forall|co: u64, timeout: Option<Duration>|
            (#[trigger] reactor.op_subscribe(fd, Direction::Read, co, token, timeout)).2.wake
                == Some(co),
{
}

/// A stream whose peer writes nothing and whose read timeout runs out:
/// the coroutine parks and asks for a timer of that length; when the timer
/// fires it takes the coroutine, and the read then fails with `TimedOut`.
pub proof fn lemma_read_times_out(stream: StreamState, io: IoState, co: u64, token: CancelState)
    requires
        io.reader is None,
        !io.readable,
        !token.cancelled,
    ensures
        ({
            let parked = spec_subscribe(io, Direction::Read, co, token, stream.read_timeout);
            &&& parked.2.timer == stream.read_timeout
            &&& parked.2.wake is None
            &&& parked.0.reader == Some(co)
            &&& parked.0.after_timer(Direction::Read).reader is None
            &&& spec_poll(parked.0.after_timer(Direction::Read), Direction::Read, parked.1).1
                == PollStep::Failed(IoError::TimedOut)
        }),
{
}

/// A coroutine blocked in a read whose token is set: the cancel wakes it
/// through the record that the token remembers, and the read then fails
/// with `Cancelled`.
pub proof fn lemma_cancel_unsticks_read(stream: StreamState, io: IoState, co: u64, token: CancelState)
    requires
        io.reader is None,
        !io.readable,
        !token.cancelled,
    ensures
        ({
            let parked = spec_subscribe(io, Direction::Read, co, token, stream.read_timeout);
            &&& parked.2.wake is None
            &&& parked.0.reader == Some(co)
            &&& parked.1.io == Some(crate::cancel::IoRef::Record { fd: io.fd, dir: Direction::Read })
            &&& parked.0.after_cancel(Direction::Read).reader is None
            &&& spec_poll(
                parked.0.after_cancel(Direction::Read),
                Direction::Read,
                parked.1.after_cancel(),
            ).1 == PollStep::Failed(IoError::Cancelled)
        }),
{
}

} // verus!
