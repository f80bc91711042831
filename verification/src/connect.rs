//! The connect operation of a stream socket on a readiness reactor: which
//! address to try, how to read the outcome of each `connect` call, when to
//! wait, and how to hand the coroutine to the reactor without losing a
//! wakeup. The system calls themselves are made by the caller, who reports
//! each outcome back.

use vstd::prelude::*;
use std::time::Duration;
use crate::addr::{Domain, SocketAddr};
use crate::cancel::{CancelState, CancelToken};
use crate::error::IoError;
use crate::event_source::{as_step, spec_poll, PollStep, Step, Subscription};
use crate::io_data::{Direction, IoState};
use crate::reactor::{lemma_with_record_keeps_wf, listed, IoEvent, Reactor, ReactorState};

verus! {

/// The error codes by which the operating system reports the progress of a
/// non-blocking connect.
#[derive(Clone, Copy, PartialEq, Eq, Structural, Debug)]
pub struct ConnectCodes {
    /// The connection was started and is not complete yet.
    pub in_progress: i32,
    /// An earlier attempt on the socket is still under way.
    pub already: i32,
    /// The socket is connected.
    pub is_connected: i32,
}

impl ConnectCodes {
    /// No two of the three codes are the same number.
    pub open spec fn spec_distinct(&self) -> bool {
        &&& self.in_progress != self.already
        &&& self.in_progress != self.is_connected
        &&& self.already != self.is_connected
    }

    #[verifier::when_used_as_spec(spec_distinct)]
    pub fn distinct(&self) -> (b: bool)
        ensures
            b == self.spec_distinct(),
    {
        self.in_progress != self.already && self.in_progress != self.is_connected && self.already
            != self.is_connected
    }
}

/// Reads the constants `libc::EINPROGRESS`, `libc::EALREADY` and
/// `libc::EISCONN`. Their values differ from one platform to another; what
/// is claimed is that on every platform the three are different numbers,
/// as error numbers are.
#[verifier::external_body]
fn os_connect_codes() -> (codes: ConnectCodes)
    ensures
        codes.spec_distinct(),
{
    ConnectCodes {
        in_progress: libc::EINPROGRESS,
        already: libc::EALREADY,
        is_connected: libc::EISCONN,
    }
}

/// What to do next while a socket is sought for one of the resolved
/// addresses.
#[derive(Clone, Copy, PartialEq, Eq, Structural, Debug)]
pub enum SetupStep {
    /// Open a stream socket of family `domain` for `addr`.
    Open { addr: SocketAddr, domain: Domain },
    /// Give up with this error.
    Fail(IoError),
}

/// The addresses are tried in order, each with a socket of its own family,
/// until a socket opens. `failed` holds the errors of the attempts made so
/// far. With no address at all the error is `NoAddresses`; when every
/// address has failed it is the error of the last attempt.
pub open spec fn spec_next_attempt(addrs: Seq<SocketAddr>, failed: Seq<IoError>) -> SetupStep {
    if failed.len() < addrs.len() {
        SetupStep::Open {
            addr: addrs[failed.len() as int],
            domain: addrs[failed.len() as int].spec_domain(),
        }
    } else if failed.len() == 0 {
        SetupStep::Fail(IoError::NoAddresses)
    } else {
        SetupStep::Fail(failed.last())
    }
}

/// The next step of the search for a socket, see [`spec_next_attempt`].
pub fn next_attempt(addrs: &Vec<SocketAddr>, failed: &Vec<IoError>) -> (step: SetupStep)
    ensures
        step == spec_next_attempt(addrs@, failed@),
{
    let tried = failed.len();
    if tried < addrs.len() {
        let addr = addrs[tried];
        SetupStep::Open { addr, domain: addr.domain() }
    } else if tried == 0 {
        SetupStep::Fail(IoError::NoAddresses)
    } else {
        SetupStep::Fail(failed[tried - 1])
    }
}

/// What the caller of a step of the connect operation does next.
#[derive(Clone, Copy, PartialEq, Eq, Structural, Debug)]
pub enum ConnectStep {
    /// The socket is connected: turn it into a stream.
    Connected,
    /// The operation is over with this error.
    Failed(IoError),
    /// Call `connect` on the socket and report the outcome.
    TryConnect,
    /// Suspend the coroutine on this operation and ask again when it runs.
    Yield,
}

/// The connect operation as plain values.
pub struct ConnectState {
    /// The descriptor of the socket, by which the reactor knows it.
    pub fd: i32,
    pub timeout: Option<Duration>,
    pub addr: SocketAddr,
    pub is_connected: bool,
    pub codes: ConnectCodes,
}

impl ConnectState {
    /// The progress codes can be told apart.
    pub open spec fn wf(self) -> bool {
        self.codes.spec_distinct()
    }

    /// The first `connect` call, made before the coroutine ever waits: it
    /// either connects at once, or is under way, or fails for good.
    pub open spec fn first_attempt(self, outcome: Result<(), IoError>) -> (
        ConnectState,
        Result<bool, IoError>,
    ) {
        match outcome {
            Ok(_) => (ConnectState { is_connected: true, ..self }, Ok(true)),
            Err(e) => if e.spec_raw_os_error() == Some(self.codes.in_progress) {
                (self, Ok(false))
            } else {
                (self, Err(e))
            },
        }
    }

    /// What the outcome of a `connect` call means for the protocol: the
    /// codes for a connection under way, looked for first, are its
    /// `WouldBlock`; the code for a socket that is connected already is a
    /// success; everything else is what it is.
    pub open spec fn protocol_outcome(self, outcome: Result<(), IoError>) -> Result<(), IoError> {
        match outcome {
            Ok(_) => Ok(()),
            Err(e) => {
                let code = e.spec_raw_os_error();
                if code == Some(self.codes.in_progress) || code == Some(self.codes.already) {
                    Err(IoError::WouldBlock)
                } else if code == Some(self.codes.is_connected) {
                    Ok(())
                } else {
                    Err(e)
                }
            },
        }
    }

    /// The step of the operation for a step of the protocol.
    pub open spec fn step_of(step: Step<()>) -> ConnectStep {
        match step {
            Step::Return(Ok(_)) => ConnectStep::Connected,
            Step::Return(Err(e)) => ConnectStep::Failed(e),
            Step::Attempt => ConnectStep::TryConnect,
            Step::Yield => ConnectStep::Yield,
        }
    }

    /// The step taken whenever the coroutine runs. It begins at the
    /// safepoint: a set token ends the operation with `Cancelled`, also
    /// when the socket is connected already. Then the operation finishes
    /// if the first call connected, and else goes on as the protocol says
    /// for the write side of the socket.
    pub open spec fn done(self, reactor: ReactorState, token: CancelState) -> (
        ReactorState,
        ConnectStep,
    ) {
        if token.cancelled {
            (reactor, ConnectStep::Failed(IoError::Cancelled))
        } else if self.is_connected {
            (reactor, ConnectStep::Connected)
        } else {
            let next = reactor.op_poll(self.fd, Direction::Write, token);
            (next.0, Self::step_of(as_step(next.1)))
        }
    }

    /// The step taken on the outcome of a `connect` call that `done` asked
    /// for: the step of the protocol for what the outcome means.
    pub open spec fn attempted(
        self,
        reactor: ReactorState,
        outcome: Result<(), IoError>,
        token: CancelState,
    ) -> (ReactorState, ConnectStep) {
        let next = reactor.op_attempted(
            self.fd,
            Direction::Write,
            self.protocol_outcome(outcome),
            token,
        );
        (next.0, Self::step_of(next.1))
    }
}

/// A connect in progress on a non-blocking socket that is registered with
/// the reactor. Its progress codes are always three different numbers.
pub struct TcpStreamConnect {
    fd: i32,
    timeout: Option<Duration>,
    addr: SocketAddr,
    is_connected: bool,
    codes: ConnectCodes,
}

impl View for TcpStreamConnect {
    type V = ConnectState;

    closed spec fn view(&self) -> ConnectState {
        ConnectState {
            fd: self.fd,
            timeout: self.timeout,
            addr: self.addr,
            is_connected: self.is_connected,
            codes: self.codes,
        }
    }
}

impl TcpStreamConnect {
    #[verifier::type_invariant]
    spec fn codes_differ(self) -> bool {
        self.codes.spec_distinct()
    }

    /// Starts the operation on the socket `fd`, opened for `addr` and set
    /// to non-blocking mode, and registers the socket with the reactor.
    /// The progress codes are those of the platform.
    pub fn new(addr: SocketAddr, fd: i32, timeout: Option<Duration>, reactor: &mut Reactor) -> (op:
        TcpStreamConnect)
        requires
            old(reactor)@.wf(),
        ensures
            final(reactor)@.wf(),
            final(reactor)@.registered(fd),
            final(reactor)@ == if old(reactor)@.registered(fd) {
                old(reactor)@
            } else {
                ReactorState {
                    records: old(reactor)@.records.push(IoState::fresh(fd)),
                    ..old(reactor)@
                }
            },
            op@ == (ConnectState { fd, timeout, addr, is_connected: false, codes: op@.codes }),
            op@.wf(),
    {
        let _ = reactor.register(fd);
        let codes = os_connect_codes();
        TcpStreamConnect { fd, timeout, addr, is_connected: false, codes }
    }

    /// The operation on the socket `fd`, which the reactor knows already,
    /// with the progress codes given. Codes that cannot be told apart are
    /// refused: the answer is `None` exactly when two of them are the same
    /// number.
    pub fn with_codes(
        addr: SocketAddr,
        fd: i32,
        timeout: Option<Duration>,
        codes: ConnectCodes,
    ) -> (op: Option<TcpStreamConnect>)
        ensures
            op is Some <==> codes.spec_distinct(),
            op matches Some(o) ==> o@ == (ConnectState {
                fd,
                timeout,
                addr,
                is_connected: false,
                codes,
            }),
    {
        if codes.distinct() {
            Some(TcpStreamConnect { fd, timeout, addr, is_connected: false, codes })
        } else {
            None
        }
    }

    /// The descriptor of the socket.
    pub fn fd(&self) -> (fd: i32)
        ensures
            fd == self@.fd,
    {
        self.fd
    }

    pub fn addr(&self) -> (addr: SocketAddr)
        ensures
            addr == self@.addr,
    {
        self.addr
    }

    pub fn timeout(&self) -> (timeout: Option<Duration>)
        ensures
            timeout == self@.timeout,
    {
        self.timeout
    }

    pub fn codes(&self) -> (codes: ConnectCodes)
        ensures
            codes == self@.codes,
            codes.spec_distinct(),
    {
        proof {
            use_type_invariant(self);
        }
        self.codes
    }

    pub fn is_connected(&self) -> (b: bool)
        ensures
            b == self@.is_connected,
    {
        self.is_connected
    }

    /// Reads the outcome of the first `connect` call: `Ok(true)` if the
    /// socket is connected, `Ok(false)` if the connection is under way.
    pub fn check_connected(&mut self, outcome: Result<(), IoError>) -> (result: Result<
        bool,
        IoError,
    >)
        ensures
            (final(self)@, result) == old(self)@.first_attempt(outcome),
    {
        proof {
            use_type_invariant(&*self);
        }
        match outcome {
            Ok(_) => {
                self.is_connected = true;
                Ok(true)
            },
            Err(e) => {
                if is_code(e.raw_os_error(), self.codes.in_progress) {
                    Ok(false)
                } else {
                    Err(e)
                }
            },
        }
    }

    /// One step of the operation, taken when the coroutine runs and before
    /// the operation returns, also when the first call connected.
    pub fn done(&self, reactor: &mut Reactor, token: &CancelToken) -> (step: ConnectStep)
        requires
            old(reactor)@.wf(),
        ensures
            final(reactor)@.wf(),
            (final(reactor)@, step) == self@.done(old(reactor)@, token@),
            token@.cancelled ==> step == ConnectStep::Failed(IoError::Cancelled),
    {
        if token.is_canceled() {
            return ConnectStep::Failed(IoError::Cancelled);
        }
        if self.is_connected {
            return ConnectStep::Connected;
        }
        match reactor.op_poll(self.fd, Direction::Write, token) {
            PollStep::Failed(e) => ConnectStep::Failed(e),
            PollStep::Attempt => ConnectStep::TryConnect,
            PollStep::Yield => ConnectStep::Yield,
        }
    }

    /// One step of the operation, taken on the outcome of the `connect`
    /// call that the previous step asked for.
    pub fn attempted(
        &self,
        reactor: &mut Reactor,
        outcome: Result<(), IoError>,
        token: &CancelToken,
    ) -> (step: ConnectStep)
        requires
            old(reactor)@.wf(),
        ensures
            final(reactor)@.wf(),
            (final(reactor)@, step) == self@.attempted(old(reactor)@, outcome, token@),
            self@.wf(),
            outcome == Err::<(), IoError>(IoError::Os(self@.codes.is_connected)) ==> step
                == ConnectStep::Connected,
    {
        proof {
            use_type_invariant(self);
        }
        let meaning: Result<(), IoError> = match outcome {
            Ok(_) => Ok(()),
            Err(e) => {
                let code = e.raw_os_error();
                if is_code(code, self.codes.in_progress) || is_code(code, self.codes.already) {
                    Err(IoError::WouldBlock)
                } else if is_code(code, self.codes.is_connected) {
                    Ok(())
                } else {
                    Err(e)
                }
            },
        };
        match reactor.op_attempted(self.fd, Direction::Write, meaning, token) {
            Step::Return(Ok(_)) => ConnectStep::Connected,
            Step::Return(Err(e)) => ConnectStep::Failed(e),
            Step::Attempt => ConnectStep::TryConnect,
            Step::Yield => ConnectStep::Yield,
        }
    }

    /// Hands the suspended coroutine `co` to the reactor: on the write
    /// side of the socket, with the timeout of the operation. Afterwards
    /// `co` is either parked there or named in the answer as woken.
    pub fn subscribe(&self, reactor: &mut Reactor, co: u64, token: &mut CancelToken) -> (sub:
        Subscription)
        requires
            old(reactor)@.wf(),
        ensures
            final(reactor)@.wf(),
            (final(reactor)@, final(token)@, sub) == old(reactor)@.op_subscribe(
                self@.fd,
                Direction::Write,
                co,
                old(token)@,
                self@.timeout,
            ),
            sub.wake is None || sub.wake == Some(co),
    {
        reactor.op_subscribe(self.fd, Direction::Write, co, token, self.timeout)
    }
}

/// Whether an error carries exactly the code `expected`.
fn is_code(code: Option<i32>, expected: i32) -> (b: bool)
    ensures
        b == (code == Some(expected)),
{
    match code {
        Some(c) => c == expected,
        None => false,
    }
}

/// Every address is tried with a socket of its own family, never with one
/// of the other.
pub proof fn lemma_socket_mirrors_family(addrs: Seq<SocketAddr>, failed: Seq<IoError>)
    requires
        failed.len() < addrs.len(),
    ensures
        spec_next_attempt(addrs, failed) matches SetupStep::Open { addr, domain } && addr
            == addrs[failed.len() as int] && (domain == Domain::Ipv6 <==> addr is V6),
{
}

/// A cancel is seen before a connect returns: with the token set the
/// step is `Failed(Cancelled)`, whether the socket is connected or not, and
/// the reactor is left alone.
pub proof fn lemma_cancelled_connect_fails(op: ConnectState, reactor: ReactorState, token: CancelState)
    requires
        token.cancelled,
    ensures
        op.done(reactor, token) == (reactor, ConnectStep::Failed(IoError::Cancelled)),
{
}

/// A connect whose socket the reactor reports writable while the
/// coroutine is parked is tried again when the coroutine runs, and the code
/// for a connected socket then finishes it.
pub proof fn lemma_connect_completes(
    op: ConnectState,
    reactor: ReactorState,
    co: u64,
    token: CancelState,
)
    requires
        op.wf(),
        reactor.wf(),
        reactor.registered(op.fd),
        !op.is_connected,
        !token.cancelled,
        !reactor.records[reactor.slot(op.fd)].write_timed_out,
        reactor.records[reactor.slot(op.fd)].writer == Some(co),
    ensures
        ({
            let ev = IoEvent { fd: op.fd, readable: false, writable: true };
            let woken = reactor.after_event(ev);
            &&& reactor.woken_by_event(ev) == seq![co]
            &&& op.done(woken, token).1 == ConnectStep::TryConnect
            &&& op.attempted(
                op.done(woken, token).0,
                Err(IoError::Os(op.codes.is_connected)),
                token,
            ).1 == ConnectStep::Connected
        }),
{
    let io = reactor.records[reactor.slot(op.fd)];
    let ev = IoEvent { fd: op.fd, readable: false, writable: true };
    assert(reactor.is_slot(op.fd, reactor.slot(op.fd)));
    lemma_with_record_keeps_wf(reactor, op.fd, io.after_deliver(false, true));
    let woken = reactor.after_event(ev);
    let pair = io.woken_by_deliver(false, true);
    assert(listed(pair.0) + listed(pair.1) =~= seq![co]);
    let polled = spec_poll(woken.records[woken.slot(op.fd)], Direction::Write, token);
    lemma_with_record_keeps_wf(woken, op.fd, polled.0);
}

/// With codes that can be told apart a connection under way is never
/// taken for a failure, and never for a success: its two codes make the
/// operation wait or try again.
pub proof fn lemma_in_progress_is_waited_out(
    op: ConnectState,
    reactor: ReactorState,
    token: CancelState,
    code: i32,
)
    requires
        op.wf(),
        reactor.wf(),
        reactor.registered(op.fd),
        code == op.codes.in_progress || code == op.codes.already,
    ensures
        op.protocol_outcome(Err(IoError::Os(code))) == Err::<(), IoError>(IoError::WouldBlock),
        op.attempted(reactor, Err(IoError::Os(code)), token).1 != ConnectStep::Connected,
        op.attempted(reactor, Err(IoError::Os(code)), token).1 != ConnectStep::Failed(
            IoError::Os(code),
        ),
{
}

} // verus!
