use coroutine::addr::{Domain, SocketAddr};
use coroutine::cancel::{CancelToken, IoRef};
use coroutine::completion::{EventData, EventState};
use coroutine::connect::{next_attempt, ConnectCodes, ConnectStep, SetupStep, TcpStreamConnect};
use coroutine::error::IoError;
use coroutine::event_source::{PollStep, Step, Subscription};
use coroutine::io_data::Direction;
use coroutine::reactor::{CancelAction, IoEvent, Reactor};
use coroutine::tcp::{ConnectPlan, IoContext, IoPlan, TcpListener, TcpStream};
use coroutine::timer::TimerTarget;
use coroutine::udp::{Submitted, UdpRecvFrom};
use std::time::Duration;

const V4: SocketAddr = SocketAddr::V4 { ip: 0x7f00_0001, port: 8080 };
const V6: SocketAddr = SocketAddr::V6 { ip: 1, port: 8080, flowinfo: 0, scope_id: 0 };

fn codes() -> ConnectCodes {
    ConnectCodes { in_progress: 115, already: 114, is_connected: 106 }
}

#[test]
fn address_family_is_mirrored() {
    assert_eq!(V4.domain(), Domain::Ipv4);
    assert_eq!(V6.domain(), Domain::Ipv6);
    assert_eq!(V4.port(), 8080);
    assert_eq!(V6.port(), 8080);
    assert_eq!(
        next_attempt(&vec![V6, V4], &vec![]),
        SetupStep::Open { addr: V6, domain: Domain::Ipv6 }
    );
    assert_eq!(
        next_attempt(&vec![V6, V4], &vec![IoError::Os(97)]),
        SetupStep::Open { addr: V4, domain: Domain::Ipv4 }
    );
}

#[test]
fn no_addresses_resolved() {
    assert_eq!(next_attempt(&vec![], &vec![]), SetupStep::Fail(IoError::NoAddresses));
}

#[test]
fn all_addresses_failed_gives_last_error() {
    assert_eq!(
        next_attempt(&vec![V6, V4], &vec![IoError::Os(97), IoError::Os(24)]),
        SetupStep::Fail(IoError::Os(24))
    );
}

#[test]
fn platform_codes_are_those_of_libc() {
    let mut reactor = Reactor::new(10, 0);
    let op = TcpStreamConnect::new(V4, 5, None, &mut reactor);
    assert_eq!(
        op.codes(),
        ConnectCodes {
            in_progress: libc::EINPROGRESS,
            already: libc::EALREADY,
            is_connected: libc::EISCONN,
        }
    );
    assert!(reactor.is_registered(5));
    assert_eq!(op.fd(), 5);
    assert_eq!(op.addr(), V4);
    assert_eq!(op.timeout(), None);
    assert!(!op.is_connected());
}

#[test]
fn first_connect_call_is_classified() {
    let mut op = TcpStreamConnect::with_codes(V4, 5, None, codes()).unwrap();
    assert_eq!(op.check_connected(Err(IoError::Os(115))), Ok(false));
    assert!(!op.is_connected());
    assert_eq!(op.check_connected(Err(IoError::Os(114))), Err(IoError::Os(114)));
    assert_eq!(op.check_connected(Err(IoError::Os(111))), Err(IoError::Os(111)));
    assert_eq!(op.check_connected(Err(IoError::Other)), Err(IoError::Other));
    assert_eq!(op.check_connected(Ok(())), Ok(true));
    assert!(op.is_connected());
    let mut reactor = Reactor::new(10, 0);
    let token = CancelToken::new();
    assert_eq!(op.done(&mut reactor, &token), ConnectStep::Connected);
}

#[test]
fn codes_that_cannot_be_told_apart_are_refused() {
    let clash = ConnectCodes { in_progress: 0, already: 0, is_connected: 0 };
    assert!(TcpStreamConnect::with_codes(V4, 5, None, clash).is_none());
    let clash = ConnectCodes { in_progress: 115, already: 114, is_connected: 115 };
    assert!(TcpStreamConnect::with_codes(V4, 5, None, clash).is_none());
    assert!(!clash.distinct());
    assert!(codes().distinct());
    let mut reactor = Reactor::new(10, 0);
    assert!(TcpStreamConnect::new(V4, 5, None, &mut reactor).codes().distinct());
}

#[test]
fn cancel_is_seen_before_a_connect_returns() {
    let mut reactor = Reactor::new(10, 0);
    let mut token = CancelToken::new();
    let mut op = TcpStreamConnect::new(V4, 5, None, &mut reactor);
    assert_eq!(op.check_connected(Ok(())), Ok(true));
    assert_eq!(op.done(&mut reactor, &token), ConnectStep::Connected);
    token.cancel();
    assert_eq!(op.done(&mut reactor, &token), ConnectStep::Failed(IoError::Cancelled));
    let waiting = TcpStreamConnect::new(V4, 6, None, &mut reactor);
    assert_eq!(waiting.done(&mut reactor, &token), ConnectStep::Failed(IoError::Cancelled));
}

#[test]
fn read_timeout_is_never_early() {
    let mut reactor = Reactor::new(10, 5);
    let mut token = CancelToken::new();
    let mut stream = TcpStream::new(3, &mut reactor);
    stream.set_read_timeout(Some(Duration::from_millis(50))).unwrap();
    let step = stream.attempted(&mut reactor, Direction::Read, Err(IoError::WouldBlock), &token);
    assert_eq!(step, Step::Yield);
    assert_eq!(stream.subscribe(&mut reactor, Direction::Read, 11, &mut token).wake, None);
    reactor.add_io_timer(3, Direction::Read, 5, 50);
    assert_eq!(reactor.poll(50, &vec![]), Vec::<u64>::new());
    assert_eq!(reactor.poll(54, &vec![]), Vec::<u64>::new());
    assert_eq!(reactor.poll_timeout(54), Some(6));
    assert_eq!(reactor.poll(60, &vec![]), vec![11]);
    assert_eq!(
        stream.done(&mut reactor, Direction::Read, &token),
        PollStep::Failed(IoError::TimedOut)
    );
    let step = stream.attempted(&mut reactor, Direction::Read, Ok(3), &token);
    assert_eq!(step, Step::Return(Ok(3)));
}

#[test]
fn timer_counts_from_the_present_after_idle_time() {
    let mut reactor = Reactor::new(10, 0);
    reactor.register(3);
    reactor.record_mut(3).unwrap().park(Direction::Read, 11);
    reactor.add_io_timer(3, Direction::Read, 10_000, 50);
    assert_eq!(reactor.poll_timeout(10_000), Some(50));
    assert_eq!(reactor.poll(10_000, &vec![]), Vec::<u64>::new());
    assert_eq!(reactor.poll(10_049, &vec![]), Vec::<u64>::new());
    assert_eq!(reactor.poll(10_050, &vec![]), vec![11]);
}

#[test]
fn write_is_not_failed_by_the_timer_of_a_read() {
    let mut reactor = Reactor::new(1, 0);
    let mut reader = CancelToken::new();
    let mut writer = CancelToken::new();
    let stream = TcpStream::new(3, &mut reactor);
    stream.attempted(&mut reactor, Direction::Read, Err(IoError::WouldBlock), &reader);
    stream.subscribe(&mut reactor, Direction::Read, 1, &mut reader);
    stream.attempted(&mut reactor, Direction::Write, Err(IoError::WouldBlock), &writer);
    stream.subscribe(&mut reactor, Direction::Write, 2, &mut writer);
    reactor.add_io_timer(3, Direction::Read, 0, 20);
    let events = vec![IoEvent { fd: 3, readable: false, writable: true }];
    assert_eq!(reactor.poll(20, &events), vec![1, 2]);
    assert_eq!(stream.done(&mut reactor, Direction::Write, &writer), PollStep::Attempt);
    assert_eq!(
        stream.done(&mut reactor, Direction::Read, &reader),
        PollStep::Failed(IoError::TimedOut)
    );
}

#[test]
fn connect_waits_and_completes() {
    let mut reactor = Reactor::new(10, 0);
    let mut token = CancelToken::new();
    let mut op = TcpStreamConnect::new(V4, 5, Some(Duration::from_secs(3)), &mut reactor);
    let in_progress = IoError::Os(libc::EINPROGRESS);
    assert_eq!(op.check_connected(Err(in_progress)), Ok(false));
    assert_eq!(op.done(&mut reactor, &token), ConnectStep::TryConnect);
    assert_eq!(op.attempted(&mut reactor, Err(in_progress), &token), ConnectStep::Yield);
    let sub = op.subscribe(&mut reactor, 77, &mut token);
    assert_eq!(sub.timer, Some(Duration::from_secs(3)));
    assert_eq!(sub.wake, None);
    assert_eq!(reactor.record(5).unwrap().writer, Some(77));
    let woken = reactor.poll(1, &vec![IoEvent { fd: 5, readable: false, writable: true }]);
    assert_eq!(woken, vec![77]);
    assert_eq!(op.done(&mut reactor, &token), ConnectStep::TryConnect);
    assert_eq!(
        op.attempted(&mut reactor, Err(IoError::Os(libc::EISCONN)), &token),
        ConnectStep::Connected
    );
    let stream = TcpStream::from_connect(op);
    assert_eq!(stream.inner(), 5);
    assert_eq!(stream.plan(true), IoPlan { set_nonblocking: None, blocking: false });
}

#[test]
fn connect_already_in_progress_waits_too() {
    let mut reactor = Reactor::new(10, 0);
    let token = CancelToken::new();
    reactor.register(5);
    let op = TcpStreamConnect::with_codes(V4, 5, None, codes()).unwrap();
    assert_eq!(op.done(&mut reactor, &token), ConnectStep::TryConnect);
    assert_eq!(op.attempted(&mut reactor, Err(IoError::Os(114)), &token), ConnectStep::Yield);
    assert!(reactor.record(5).unwrap().write_wait);
    assert_eq!(op.done(&mut reactor, &token), ConnectStep::Yield);
}

#[test]
fn connect_refused_fails() {
    let mut reactor = Reactor::new(10, 0);
    let token = CancelToken::new();
    reactor.register(5);
    let op = TcpStreamConnect::with_codes(V4, 5, None, codes()).unwrap();
    assert_eq!(op.attempted(&mut reactor, Ok(()), &token), ConnectStep::Connected);
    assert_eq!(
        op.attempted(&mut reactor, Err(IoError::Os(111)), &token),
        ConnectStep::Failed(IoError::Os(111))
    );
}

#[test]
fn connect_times_out() {
    let mut reactor = Reactor::new(10, 0);
    let mut token = CancelToken::new();
    reactor.register(5);
    let op =
        TcpStreamConnect::with_codes(V4, 5, Some(Duration::from_millis(30)), codes()).unwrap();
    assert_eq!(op.attempted(&mut reactor, Err(IoError::Os(115)), &token), ConnectStep::Yield);
    let sub = op.subscribe(&mut reactor, 9, &mut token);
    assert_eq!(sub.timer, Some(Duration::from_millis(30)));
    reactor.add_io_timer(5, Direction::Write, 0, 30);
    assert_eq!(reactor.poll(29, &vec![]), Vec::<u64>::new());
    assert_eq!(reactor.poll(30, &vec![]), vec![9]);
    assert_eq!(op.done(&mut reactor, &token), ConnectStep::Failed(IoError::TimedOut));
}

#[test]
fn connect_plan_depends_on_the_caller() {
    assert_eq!(TcpStream::connect(true), ConnectPlan::Evented);
    assert_eq!(TcpStream::connect(false), ConnectPlan::Blocking);
}

#[test]
fn mode_follows_the_caller() {
    let mut ctx = IoContext::new(true);
    assert_eq!(ctx.check(true), IoPlan { set_nonblocking: None, blocking: false });
    assert_eq!(ctx.check(false), IoPlan { set_nonblocking: Some(false), blocking: true });
    ctx.set_mode(false);
    assert_eq!(ctx.check(false), IoPlan { set_nonblocking: None, blocking: true });
    assert_eq!(ctx.check(true), IoPlan { set_nonblocking: Some(true), blocking: false });
}

#[test]
fn stream_timeouts_are_stored_and_cloned() {
    let mut reactor = Reactor::new(10, 0);
    let mut stream = TcpStream::new(3, &mut reactor);
    assert_eq!(stream.read_timeout(), Ok(None));
    assert_eq!(stream.write_timeout(), Ok(None));
    assert_eq!(stream.set_read_timeout(Some(Duration::from_millis(50))), Ok(()));
    assert_eq!(stream.set_write_timeout(Some(Duration::from_secs(2))), Ok(()));
    assert_eq!(stream.read_timeout(), Ok(Some(Duration::from_millis(50))));
    assert_eq!(stream.write_timeout(), Ok(Some(Duration::from_secs(2))));
    let copy = stream.try_clone(4, &mut reactor);
    assert_eq!(copy.inner(), 4);
    assert_eq!(copy.read_timeout(), Ok(Some(Duration::from_millis(50))));
    assert_eq!(copy.write_timeout(), Ok(Some(Duration::from_secs(2))));
    assert!(reactor.is_registered(3) && reactor.is_registered(4));
    assert_eq!(stream.set_read_timeout(None), Ok(()));
    assert_eq!(stream.read_timeout(), Ok(None));
    assert_eq!(copy.read_timeout(), Ok(Some(Duration::from_millis(50))));
}

#[test]
fn blocking_stream_is_not_registered() {
    let mut stream = TcpStream::from_stream(6);
    assert_eq!(stream.inner(), 6);
    assert_eq!(stream.plan(false), IoPlan { set_nonblocking: None, blocking: true });
    assert_eq!(stream.plan(true), IoPlan { set_nonblocking: Some(true), blocking: false });
    stream.set_mode(true);
    assert_eq!(stream.plan(true), IoPlan { set_nonblocking: None, blocking: false });
}

#[test]
fn timeout_wins_over_read() {
    let mut reactor = Reactor::new(1, 0);
    let mut token = CancelToken::new();
    let mut stream = TcpStream::new(3, &mut reactor);
    stream.set_read_timeout(Some(Duration::from_millis(50))).unwrap();
    let step = stream.attempted(&mut reactor, Direction::Read, Err(IoError::WouldBlock), &token);
    assert_eq!(step, Step::Yield);
    let sub = stream.subscribe(&mut reactor, Direction::Read, 11, &mut token);
    assert_eq!(sub.timer, Some(Duration::from_millis(50)));
    assert_eq!(sub.wake, None);
    reactor.add_io_timer(3, Direction::Read, 0, 50);
    assert_eq!(reactor.poll_timeout(0), Some(50));
    assert_eq!(reactor.poll(49, &vec![]), Vec::<u64>::new());
    assert_eq!(reactor.poll_timeout(49), Some(1));
    assert_eq!(reactor.poll(50, &vec![]), vec![11]);
    assert_eq!(
        stream.done(&mut reactor, Direction::Read, &token),
        PollStep::Failed(IoError::TimedOut)
    );
    assert_eq!(reactor.poll_timeout(50), None);
}

#[test]
fn cancellation_unsticks_read() {
    let mut reactor = Reactor::new(1, 0);
    let mut token = CancelToken::new();
    let stream = TcpStream::new(3, &mut reactor);
    let step = stream.attempted(&mut reactor, Direction::Read, Err(IoError::WouldBlock), &token);
    assert_eq!(step, Step::Yield);
    assert_eq!(stream.subscribe(&mut reactor, Direction::Read, 12, &mut token).wake, None);
    assert_eq!(reactor.cancel_task(&mut token), CancelAction { wake: Some(12), abort: None });
    assert_eq!(reactor.cancel_task(&mut token), CancelAction { wake: None, abort: None });
    assert_eq!(
        stream.done(&mut reactor, Direction::Read, &token),
        PollStep::Failed(IoError::Cancelled)
    );
}

#[test]
fn read_after_peer_shutdown_is_end_of_stream() {
    let mut reactor = Reactor::new(1, 0);
    let mut token = CancelToken::new();
    let stream = TcpStream::new(3, &mut reactor);
    let step = stream.attempted(&mut reactor, Direction::Read, Err(IoError::WouldBlock), &token);
    assert_eq!(step, Step::Yield);
    stream.subscribe(&mut reactor, Direction::Read, 5, &mut token);
    assert_eq!(reactor.deliver(IoEvent { fd: 3, readable: true, writable: false }), (Some(5), None));
    assert_eq!(stream.done(&mut reactor, Direction::Read, &token), PollStep::Attempt);
    let step = stream.attempted(&mut reactor, Direction::Read, Ok(0), &token);
    assert_eq!(step, Step::Return(Ok(0)));
}

#[test]
fn echo_round_trip_through_the_protocol() {
    let mut reactor = Reactor::new(1, 0);
    let mut token = CancelToken::new();
    let server = TcpStream::new(10, &mut reactor);
    let step = server.attempted(&mut reactor, Direction::Read, Err(IoError::WouldBlock), &token);
    assert_eq!(step, Step::Yield);
    assert_eq!(server.subscribe(&mut reactor, Direction::Read, 1, &mut token).wake, None);
    let woken = reactor.poll(0, &vec![IoEvent { fd: 10, readable: true, writable: false }]);
    assert_eq!(woken, vec![1]);
    assert_eq!(server.done(&mut reactor, Direction::Read, &token), PollStep::Attempt);
    let hello = b"hello\n".len();
    let step = server.attempted(&mut reactor, Direction::Read, Ok(hello), &token);
    assert_eq!(step, Step::Return(Ok(6)));
    let step = server.attempted(&mut reactor, Direction::Write, Ok(hello), &token);
    assert_eq!(step, Step::Return(Ok(6)));
    let step = server.attempted(&mut reactor, Direction::Read, Ok(0), &token);
    assert_eq!(step, Step::Return(Ok(0)));
    assert!(server.close(&mut reactor).is_some());
    assert!(!reactor.is_registered(10));
}

#[test]
fn accept_returns_a_registered_stream() {
    let mut reactor = Reactor::new(1, 0);
    let token = CancelToken::new();
    let listener = TcpListener::new(20, &mut reactor);
    assert_eq!(listener.inner(), 20);
    match listener.accept(&mut reactor, Ok((21, V4)), &token) {
        Step::Return(Ok((stream, peer))) => {
            assert_eq!(stream.inner(), 21);
            assert_eq!(peer, V4);
            assert_eq!(stream.read_timeout(), Ok(None));
            assert_eq!(stream.plan(true), IoPlan { set_nonblocking: None, blocking: false });
        }
        _ => panic!("a connection was not returned"),
    }
    assert!(reactor.is_registered(21));
    assert_eq!(reactor.len(), 2);
}

#[test]
fn accept_waits_only_on_would_block() {
    let mut reactor = Reactor::new(1, 0);
    let mut token = CancelToken::new();
    let listener = TcpListener::new(20, &mut reactor);
    assert_eq!(listener.plan(true), IoPlan { set_nonblocking: None, blocking: false });
    assert!(matches!(
        listener.accept(&mut reactor, Err(IoError::WouldBlock), &token),
        Step::Yield
    ));
    let sub = listener.subscribe(&mut reactor, 8, &mut token);
    assert_eq!(sub.timer, None);
    assert_eq!(sub.wake, None);
    assert_eq!(reactor.deliver(IoEvent { fd: 20, readable: true, writable: false }), (Some(8), None));
    assert_eq!(listener.done(&mut reactor, &token), PollStep::Attempt);
    assert!(matches!(
        listener.accept(&mut reactor, Err(IoError::Os(24)), &token),
        Step::Return(Err(IoError::Os(24)))
    ));
}

#[test]
fn accept_on_closed_listener_does_not_hang() {
    let mut reactor = Reactor::new(1, 0);
    let mut token = CancelToken::new();
    let listener = TcpListener::new(20, &mut reactor);
    let twin = listener.try_clone(20, &mut reactor);
    assert_eq!(reactor.len(), 1);
    assert!(listener.close(&mut reactor).is_some());
    assert!(matches!(
        twin.accept(&mut reactor, Err(IoError::Os(9)), &token),
        Step::Return(Err(IoError::Os(9)))
    ));
    assert!(matches!(
        twin.accept(&mut reactor, Err(IoError::WouldBlock), &token),
        Step::Return(Err(IoError::Other))
    ));
    assert_eq!(twin.done(&mut reactor, &token), PollStep::Failed(IoError::Other));
    assert_eq!(twin.subscribe(&mut reactor, 8, &mut token).wake, Some(8));
    assert!(twin.close(&mut reactor).is_none());
}

#[test]
fn incoming_never_ends() {
    let mut reactor = Reactor::new(1, 0);
    let listener = TcpListener::new(20, &mut reactor);
    let mut incoming = listener.incoming();
    assert_eq!(incoming.inner(), 20);
    let stream = TcpStream::new(21, &mut reactor);
    match incoming.next(Ok((stream, V6))) {
        Some(Ok(s)) => assert_eq!(s.inner(), 21),
        _ => panic!("the stream was not handed on"),
    }
    assert!(matches!(incoming.next(Err(IoError::Os(24))), Some(Err(IoError::Os(24)))));
}

#[test]
fn registration_is_idempotent_and_deregistration_happens_once() {
    let mut reactor = Reactor::new(1, 0);
    assert!(reactor.register(4));
    reactor.record_mut(4).unwrap().park(Direction::Read, 99);
    assert!(!reactor.register(4));
    assert_eq!(reactor.len(), 1);
    assert_eq!(reactor.record(4).unwrap().reader, Some(99));
    assert!(reactor.register(5));
    let removed = reactor.deregister(4).unwrap();
    assert_eq!(removed.reader, Some(99));
    assert_eq!(reactor.deregister(4), None);
    assert!(!reactor.is_registered(4));
    assert!(reactor.is_registered(5));
    assert!(reactor.record_mut(4).is_none());
    assert_eq!(reactor.record(4), None);
}

#[test]
fn poll_fires_timers_before_events_and_wakes_once() {
    let mut reactor = Reactor::new(1, 0);
    reactor.register(4);
    reactor.register(5);
    reactor.record_mut(4).unwrap().park(Direction::Read, 1);
    reactor.record_mut(5).unwrap().park(Direction::Write, 2);
    reactor.record_mut(5).unwrap().park(Direction::Read, 3);
    let io_timer = reactor.add_io_timer(4, Direction::Read, 0, 10);
    let sleep = reactor.add_timer(50, 0, 5);
    let late = reactor.add_timer(51, 0, 500);
    assert_eq!((io_timer, sleep, late), (0, 1, 2));
    let events = vec![
        IoEvent { fd: 5, readable: true, writable: true },
        IoEvent { fd: 4, readable: true, writable: false },
        IoEvent { fd: 6, readable: true, writable: true },
    ];
    assert_eq!(reactor.poll(10, &events), vec![1, 50, 3, 2]);
    assert!(reactor.record(4).unwrap().read_timed_out);
    assert!(!reactor.record(4).unwrap().write_timed_out);
    assert!(reactor.record(4).unwrap().readable);
    assert!(!reactor.record(5).unwrap().read_timed_out);
    assert_eq!(reactor.poll(10, &events), Vec::<u64>::new());
    assert!(reactor.cancel_timer(late));
    assert!(!reactor.cancel_timer(late));
    assert!(!reactor.cancel_timer(sleep));
    assert_eq!(reactor.poll(1000, &vec![]), Vec::<u64>::new());
    assert_eq!(reactor.fire(TimerTarget::Co(7)), Some(7));
    assert_eq!(reactor.fire(TimerTarget::Io { fd: 9, dir: Direction::Read }), None);
    assert_eq!(reactor.cancel(9, Direction::Read), None);
}

#[test]
fn unregistered_operations_end_at_once() {
    let mut reactor = Reactor::new(1, 0);
    let mut token = CancelToken::new();
    let step: Step<usize> = reactor.op_attempted(3, Direction::Read, Ok(5), &token);
    assert_eq!(step, Step::Return(Ok(5)));
    let step: Step<usize> = reactor.op_attempted(3, Direction::Read, Err(IoError::WouldBlock), &token);
    assert_eq!(step, Step::Return(Err(IoError::Other)));
    assert_eq!(reactor.op_poll(3, Direction::Read, &token), PollStep::Failed(IoError::Other));
    assert_eq!(reactor.op_subscribe(3, Direction::Read, 1, &mut token, None).wake, Some(1));
}

#[test]
fn datagram_receive_completes() {
    let mut token = CancelToken::new();
    let mut op = UdpRecvFrom::new(8, Some(Duration::from_millis(20)));
    assert_eq!(op.io_data().state(), EventState {
        handle: 8,
        co: None,
        complete: false,
        size: 0,
        error: None,
        timed_out: false,
    });
    assert_eq!(
        op.subscribe(3),
        Subscription { timer: Some(Duration::from_millis(20)), wake: None }
    );
    assert_eq!(op.submitted(Ok(()), &mut token), Submitted { wake: None, abort: false });
    assert_eq!(token.io(), Some(IoRef::Overlapped { handle: 8 }));
    assert_eq!(op.io_data_mut().complete(Ok(12)), Some(3));
    assert_eq!(op.done(Some(V4), &token), Ok((12, V4)));
}

#[test]
fn datagram_without_sender_address() {
    let mut token = CancelToken::new();
    let mut op = UdpRecvFrom::new(8, None);
    op.subscribe(3);
    op.submitted(Ok(()), &mut token);
    op.io_data_mut().complete(Ok(12));
    assert_eq!(op.done(None, &token), Err(IoError::NoRemoteAddress));
}

#[test]
fn datagram_submit_failure_wakes_with_the_error() {
    let mut token = CancelToken::new();
    let mut op = UdpRecvFrom::new(8, None);
    assert_eq!(op.subscribe(3), Subscription { timer: None, wake: None });
    assert_eq!(
        op.submitted(Err(IoError::Os(10054)), &mut token),
        Submitted { wake: Some(3), abort: false }
    );
    assert_eq!(op.done(Some(V4), &token), Err(IoError::Os(10054)));
}

#[test]
fn datagram_timeout_aborts_and_waits_for_completion() {
    let mut token = CancelToken::new();
    let mut op = UdpRecvFrom::new(8, Some(Duration::from_millis(20)));
    op.subscribe(3);
    op.submitted(Ok(()), &mut token);
    assert!(op.io_data_mut().fire_timer());
    assert_eq!(op.io_data().state().co, Some(3));
    assert_eq!(op.io_data_mut().complete(Err(IoError::Os(995))), Some(3));
    assert!(!op.io_data_mut().fire_timer());
    assert_eq!(op.done(Some(V4), &token), Err(IoError::TimedOut));
}

#[test]
fn datagram_cancel_asks_for_abort() {
    let mut token = CancelToken::new();
    token.cancel();
    let mut op = UdpRecvFrom::new(8, None);
    op.subscribe(3);
    assert_eq!(op.submitted(Ok(()), &mut token), Submitted { wake: None, abort: true });
    assert_eq!(token.io(), None);
    assert_eq!(op.io_data_mut().complete(Err(IoError::Os(995))), Some(3));
    assert_eq!(op.done(Some(V4), &token), Err(IoError::Cancelled));
}

#[test]
fn datagram_cancel_after_submission_reaches_the_receive() {
    let mut token = CancelToken::new();
    let mut op = UdpRecvFrom::new(8, None);
    op.subscribe(3);
    assert_eq!(op.submitted(Ok(()), &mut token), Submitted { wake: None, abort: false });
    let mut reactor = Reactor::new(10, 0);
    assert_eq!(reactor.cancel_task(&mut token), CancelAction { wake: None, abort: Some(8) });
    assert!(op.cancel());
    assert_eq!(reactor.cancel_task(&mut token), CancelAction { wake: None, abort: None });
    assert_eq!(token.cancel(), None);
    assert_eq!(op.io_data().state().co, Some(3));
    assert_eq!(op.io_data_mut().complete(Err(IoError::Os(995))), Some(3));
    assert!(!op.cancel());
    assert_eq!(op.done(Some(V4), &token), Err(IoError::Cancelled));
}

#[test]
fn datagram_receive_holds_one_coroutine() {
    let mut op = UdpRecvFrom::new(8, Some(Duration::from_millis(20)));
    assert_eq!(
        op.subscribe(3),
        Subscription { timer: Some(Duration::from_millis(20)), wake: None }
    );
    assert_eq!(op.subscribe(4), Subscription { timer: None, wake: Some(4) });
    assert_eq!(op.io_data().state().co, Some(3));
}

#[test]
fn completion_record_steps() {
    let mut io = EventData::new(1);
    assert_eq!(io.result(false), Err(IoError::Other));
    assert!(io.park(4));
    assert!(!io.park(5));
    assert_eq!(io.complete(Ok(9)), Some(4));
    assert_eq!(io.complete(Ok(9)), None);
    assert!(!io.cancel());
    assert_eq!(io.handle(), 1);
    assert_eq!(io.result(false), Ok(9));
    assert_eq!(io.result(true), Err(IoError::Cancelled));
    io.fail(IoError::Os(5));
    assert_eq!(io.result(false), Err(IoError::Os(5)));
    assert_eq!(io.take_co(), None);
}
