use coroutine::channel::{Channel, RecvStep, TryRecvError};
use coroutine::coroutine::{CoEvent, CoState, Coroutine, JoinError};
use coroutine::error::IoError;
use coroutine::io_data::Direction;
use coroutine::park::{ParkState, ParkStep, Parker};
use coroutine::poison::Flag;
use coroutine::reactor::Reactor;
use coroutine::scheduler::{
    scheduler_set_workers, ConfigError, ConfigState, Scheduler, SchedulerConfig, WorkerAction,
};
use coroutine::select::Select;
use coroutine::tcp::TcpListener;
use coroutine::timer::{TimerEntry, TimerStatus, TimerTarget, TimerWheel};
use coroutine::cancel::CancelToken;
use coroutine::event_source::Step;

#[test]
fn parker_suspends_on_empty_slot() {
    let mut p = Parker::new();
    assert_eq!(p.state(), ParkState::Empty);
    assert_eq!(p.park(5), ParkStep::Suspend);
    assert_eq!(p.state(), ParkState::Parked(5));
    assert_eq!(p.park(6), ParkStep::Proceed);
    assert_eq!(p.state(), ParkState::Parked(5));
}

#[test]
fn unpark_wakes_once() {
    let mut p = Parker::new();
    p.park(5);
    assert_eq!(p.unpark(), Some(5));
    assert_eq!(p.unpark(), None);
    assert_eq!(p.state(), ParkState::Notified);
    assert!(p.resume());
    assert_eq!(p.state(), ParkState::Empty);
    assert!(!p.resume());
}

#[test]
fn wakeup_before_park_is_kept() {
    let mut p = Parker::new();
    assert_eq!(p.unpark(), None);
    assert_eq!(p.park(5), ParkStep::Proceed);
    assert_eq!(p.state(), ParkState::Empty);
    assert_eq!(p.park(5), ParkStep::Suspend);
}

#[test]
fn unpark_and_deadline_race() {
    let mut p = Parker::new();
    p.park(5);
    assert_eq!(p.unpark(), Some(5));
    assert!(!p.timeout(5));
    let mut q = Parker::new();
    q.park(5);
    assert!(!q.timeout(6));
    assert!(q.timeout(5));
    assert_eq!(q.state(), ParkState::Empty);
    assert!(!q.timeout(5));
    assert_eq!(q.unpark(), None);
}

#[test]
fn scheduler_starts_empty() {
    let mut s = Scheduler::new(0, 8);
    assert_eq!(s.workers(), 1);
    assert_eq!(s.capacity(), 8);
    assert_eq!(s.global_len(), 0);
    assert_eq!(s.local_len(0), 0);
    assert_eq!(s.running(0), None);
    assert_eq!(s.next_task(0, 0), None);
    assert_eq!(Scheduler::new(4, 8).workers(), 4);
}

#[test]
fn spawn_goes_local_and_overflows_to_global() {
    let mut s = Scheduler::new(2, 2);
    assert!(s.spawn(Some(1), 10));
    assert!(s.spawn(Some(1), 11));
    assert!(!s.spawn(Some(1), 12));
    assert!(!s.spawn(None, 13));
    assert!(!s.spawn(Some(2), 14));
    assert_eq!(s.local_len(1), 2);
    assert_eq!(s.local_len(0), 0);
    assert_eq!(s.global_len(), 3);
}

#[test]
fn next_task_order_is_local_global_steal() {
    let mut s = Scheduler::new(3, 4);
    s.spawn(Some(0), 1);
    s.spawn(None, 2);
    s.spawn(Some(2), 3);
    s.spawn(Some(1), 4);
    assert_eq!(s.next_task(0, 0), Some(1));
    assert_eq!(s.running(0), Some(1));
    assert_eq!(s.release(0), Some(1));
    assert_eq!(s.next_task(0, 0), Some(2));
    s.release(0);
    assert_eq!(s.next_task(0, 2), Some(3));
    s.release(0);
    assert_eq!(s.next_task(0, 2), Some(4));
    s.release(0);
    assert_eq!(s.next_task(0, 7), None);
    assert_eq!(s.running(0), None);
    assert_eq!(s.release(0), None);
}

#[test]
fn yield_now_is_fifo() {
    let mut s = Scheduler::new(1, 8);
    s.spawn(Some(0), 1);
    s.spawn(Some(0), 2);
    s.spawn(Some(0), 3);
    let mut order = Vec::new();
    for _ in 0..6 {
        let task = s.next_task(0, 0).unwrap();
        order.push(task);
        s.yield_now(0);
    }
    assert_eq!(order, vec![1, 2, 3, 1, 2, 3]);
    assert_eq!(s.local_len(0), 3);
}

#[test]
fn yield_on_full_queue_goes_global() {
    let mut s = Scheduler::new(1, 1);
    s.spawn(Some(0), 1);
    assert_eq!(s.next_task(0, 0), Some(1));
    s.spawn(Some(0), 2);
    s.yield_now(0);
    assert_eq!(s.local_len(0), 1);
    assert_eq!(s.global_len(), 1);
    assert_eq!(s.next_task(0, 0), Some(2));
    s.release(0);
    assert_eq!(s.next_task(0, 0), Some(1));
}

#[test]
fn non_yielding_task_blocks_only_its_worker() {
    let mut s = Scheduler::new(2, 8);
    s.spawn(Some(0), 1);
    s.spawn(Some(0), 2);
    s.spawn(Some(0), 3);
    assert_eq!(s.next_task(0, 1), Some(1));
    assert_eq!(s.next_task(1, 0), Some(2));
    assert_eq!(s.release(1), Some(2));
    assert_eq!(s.next_task(1, 0), Some(3));
    assert_eq!(s.release(1), Some(3));
    assert_eq!(s.next_task(1, 0), None);
    assert_eq!(s.running(0), Some(1));
}

#[test]
fn work_stealing_progress() {
    let workers = 4;
    let mut s = Scheduler::new(workers, 64);
    let mut yields = vec![0u32; 1000];
    for task in 0..1000u64 {
        s.spawn(Some(0), task);
    }
    let mut finished = 0;
    let mut ran = vec![0u32; workers];
    while finished < 1000 {
        for w in 0..workers {
            match s.next_task(w, w + 1) {
                Some(task) => {
                    ran[w] += 1;
                    let seen = &mut yields[task as usize];
                    if *seen < 10 {
                        *seen += 1;
                        s.yield_now(w);
                    } else {
                        assert_eq!(s.release(w), Some(task));
                        finished += 1;
                    }
                }
                None => {
                    assert_eq!(s.global_len(), 0);
                    for v in 0..workers {
                        assert_eq!(s.local_len(v), 0);
                    }
                }
            }
        }
    }
    assert_eq!(finished, 1000);
    assert!(yields.iter().all(|y| *y == 10));
    assert_eq!(ran.iter().sum::<u32>(), 11_000);
    assert!(ran.iter().all(|r| *r > 0));
    for w in 0..workers {
        assert_eq!(s.next_task(w, 0), None);
    }
}

#[test]
fn task_has_one_owner() {
    let mut s = Scheduler::new(2, 8);
    assert!(!s.holds(1));
    s.spawn(Some(0), 1);
    assert!(s.holds(1));
    assert_eq!(s.next_task(0, 1), Some(1));
    assert!(s.holds(1));
    assert_eq!(s.next_task(1, 0), None);
    assert_eq!((s.running(0), s.running(1)), (Some(1), None));
    s.yield_now(0);
    assert_eq!(s.next_task(1, 0), Some(1));
    assert_eq!(s.next_task(0, 1), None);
    assert_eq!((s.running(0), s.running(1)), (None, Some(1)));
    assert_eq!(s.release(1), Some(1));
    assert!(!s.holds(1));
    s.spawn(None, 2);
    assert!(s.holds(2));
    assert!(!s.holds(3));
}

#[test]
fn worker_loop_drains_the_reactor_periodically() {
    let mut s = Scheduler::new(2, 8);
    s.spawn(Some(0), 1);
    s.spawn(Some(1), 2);
    assert_eq!(s.worker_step(0, 1, 61, 61), WorkerAction::Drain);
    assert_eq!(s.local_len(0), 1);
    assert_eq!(s.worker_step(0, 1, 60, 61), WorkerAction::Run(1));
    assert_eq!(s.running(0), Some(1));
    s.release(0);
    assert_eq!(s.worker_step(0, 1, 1000, 0), WorkerAction::Run(2));
    s.release(0);
    assert_eq!(s.worker_step(0, 1, 0, 61), WorkerAction::Sleep);
}

#[test]
fn worker_count_is_fixed_at_start() {
    let mut config = SchedulerConfig::new();
    assert_eq!(config.state(), ConfigState { workers: None, initialized: false });
    assert_eq!(scheduler_set_workers(&mut config, 1), Ok(()));
    assert_eq!(scheduler_set_workers(&mut config, 3), Ok(()));
    let s = config.init(8, 16).unwrap();
    assert_eq!(s.workers(), 3);
    assert_eq!(s.capacity(), 16);
    assert_eq!(scheduler_set_workers(&mut config, 5), Err(ConfigError::AlreadyInitialized));
    assert_eq!(config.state(), ConfigState { workers: Some(3), initialized: true });
    assert!(config.init(8, 16).is_none());
}

#[test]
fn worker_count_defaults_to_cores() {
    let mut config = SchedulerConfig::new();
    assert_eq!(config.init(6, 16).unwrap().workers(), 6);
    let mut config = SchedulerConfig::new();
    assert_eq!(config.init(0, 16).unwrap().workers(), 1);
}

#[test]
fn deadlines_are_rounded_up_to_the_resolution() {
    let mut wheel = TimerWheel::new(10, 100);
    assert_eq!(wheel.now(), 100);
    assert_eq!(wheel.resolution(), 10);
    assert_eq!(wheel.add(100, 25, TimerTarget::Co(9)), 0);
    assert_eq!(
        wheel.entry(0),
        Some(TimerEntry { deadline: 130, target: TimerTarget::Co(9), status: TimerStatus::Pending })
    );
    assert_eq!(wheel.add(100, 20, TimerTarget::Co(8)), 1);
    assert_eq!(wheel.entry(1).unwrap().deadline, 120);
    assert_eq!(wheel.add(100, u64::MAX, TimerTarget::Co(7)), 2);
    assert_eq!(wheel.entry(2).unwrap().deadline, u64::MAX);
    assert_eq!(wheel.add(u64::MAX - 4, 1, TimerTarget::Co(6)), 3);
    assert_eq!(wheel.entry(3).unwrap().deadline, u64::MAX);
    assert_eq!(wheel.add(107, 4, TimerTarget::Co(5)), 4);
    assert_eq!(wheel.entry(4).unwrap().deadline, 120);
    assert_eq!(wheel.add(7, 4, TimerTarget::Co(4)), 5);
    assert_eq!(wheel.entry(5).unwrap().deadline, 110);
    assert_eq!(wheel.add(u64::MAX - 7, 1, TimerTarget::Co(3)), 6);
    assert_eq!(wheel.entry(6).unwrap().deadline, u64::MAX - 5);
    assert_eq!(wheel.now(), 100);
    assert_eq!(wheel.entry(7), None);
    assert_eq!(TimerWheel::new(0, 0).resolution(), 1);
}

#[test]
fn sleep_never_ends_early() {
    let mut wheel = TimerWheel::new(10, 103);
    wheel.add(103, 25, TimerTarget::Co(1));
    assert_eq!(wheel.next_deadline(), Some(130));
    assert_eq!(wheel.poll_timeout(103), Some(27));
    assert_eq!(wheel.poll_timeout(110), Some(20));
    assert_eq!(wheel.advance(128), Vec::<TimerTarget>::new());
    assert_eq!(wheel.advance(129), Vec::<TimerTarget>::new());
    assert_eq!(wheel.poll_timeout(0), Some(1));
    assert_eq!(wheel.advance(130), vec![TimerTarget::Co(1)]);
    assert!(130 - 103 >= 25);
    assert_eq!(wheel.entry(0).unwrap().status, TimerStatus::Fired);
    assert_eq!(wheel.advance(500), Vec::<TimerTarget>::new());
    assert_eq!(wheel.next_deadline(), None);
    assert_eq!(wheel.poll_timeout(500), None);
}

#[test]
fn timers_fire_once_in_order_of_insertion() {
    let mut wheel = TimerWheel::new(1, 0);
    let a = wheel.add(0, 30, TimerTarget::Co(1));
    let b = wheel.add(0, 10, TimerTarget::Io { fd: 4, dir: Direction::Read });
    let c = wheel.add(0, 20, TimerTarget::Co(3));
    assert_eq!((a, b, c), (0, 1, 2));
    assert_eq!(wheel.next_deadline(), Some(10));
    assert!(wheel.cancel(c));
    assert!(!wheel.cancel(c));
    assert!(!wheel.cancel(9));
    assert_eq!(wheel.entry(c).unwrap().status, TimerStatus::Cancelled);
    assert_eq!(
        wheel.advance(40),
        vec![TimerTarget::Co(1), TimerTarget::Io { fd: 4, dir: Direction::Read }]
    );
    assert!(!wheel.cancel(a));
    assert_eq!(wheel.advance(40), Vec::<TimerTarget>::new());
    assert_eq!(wheel.advance(5), Vec::<TimerTarget>::new());
    assert_eq!(wheel.now(), 40);
    wheel.add(40, 0, TimerTarget::Co(5));
    assert_eq!(wheel.poll_timeout(40), Some(0));
}

#[test]
fn channel_delivers_in_order() {
    let mut ch: Channel<u32> = Channel::new();
    assert_eq!(ch.try_recv(), Err(TryRecvError::Empty));
    assert_eq!(ch.send(1), Ok(None));
    assert_eq!(ch.send(2), Ok(None));
    assert_eq!(ch.len(), 2);
    assert_eq!(ch.try_recv(), Ok(1));
    assert_eq!(ch.recv(7), RecvStep::Return(Ok(2)));
    assert_eq!(ch.len(), 0);
}

#[test]
fn channel_receiver_waits_and_is_woken() {
    let mut ch: Channel<u32> = Channel::new();
    ch.resume();
    assert_eq!(ch.recv(7), RecvStep::Wait);
    assert_eq!(ch.send(42), Ok(Some(7)));
    ch.resume();
    assert_eq!(ch.recv(7), RecvStep::Return(Ok(42)));
    assert_eq!(ch.send(43), Ok(None));
    assert_eq!(ch.try_recv(), Ok(43));
    assert_eq!(ch.recv(7), RecvStep::Retry);
    assert_eq!(ch.recv(7), RecvStep::Wait);
}

#[test]
fn channel_breaks_when_a_side_is_gone() {
    let mut ch: Channel<u32> = Channel::new();
    ch.send(1).unwrap();
    assert_eq!(ch.recv(3), RecvStep::Return(Ok(1)));
    assert_eq!(ch.recv(3), RecvStep::Retry);
    assert_eq!(ch.recv(3), RecvStep::Wait);
    assert_eq!(ch.close_senders(), Some(3));
    assert_eq!(ch.try_recv(), Err(TryRecvError::Disconnected));
    assert_eq!(ch.recv(3), RecvStep::Return(Err(IoError::BrokenChannel)));
    let mut ch: Channel<u32> = Channel::new();
    ch.send(1).unwrap();
    ch.close_receivers();
    assert_eq!(ch.send(2), Err(IoError::BrokenChannel));
    assert_eq!(ch.len(), 1);
}

#[test]
fn channel_multiset_received_equals_sent() {
    let mut ch: Channel<u64> = Channel::new();
    let mut sent = Vec::new();
    let mut received = Vec::new();
    let mut next = [0u64, 1000, 2000];
    for round in 0..200usize {
        let sender = round % 3;
        ch.send(next[sender]).unwrap();
        sent.push(next[sender]);
        next[sender] += 1;
        if round % 2 == 1 || round % 5 == 0 {
            if let Ok(v) = ch.try_recv() {
                received.push(v);
            }
        }
    }
    while let Ok(v) = ch.try_recv() {
        received.push(v);
    }
    assert_eq!(received, sent);
    let mut a = sent.clone();
    let mut b = received.clone();
    a.sort();
    b.sort();
    assert_eq!(a, b);
}

#[test]
fn select_first_come_wins() {
    let mut sel = Select::new(3);
    assert_eq!(sel.winner(), None);
    assert_eq!(sel.losers(), Vec::<usize>::new());
    assert!(sel.complete(2));
    assert!(sel.complete(0));
    assert!(!sel.complete(2));
    assert!(!sel.complete(3));
    assert_eq!(sel.winner(), Some(2));
    assert_eq!(sel.losers(), vec![0, 1]);
}

#[test]
fn select_ties_go_to_smallest_id() {
    let mut sel = Select::new(4);
    sel.complete_ready(&vec![false, true, false, true]);
    assert_eq!(sel.winner(), Some(1));
    assert_eq!(sel.losers(), vec![0, 2, 3]);
    sel.complete_ready(&vec![true, true, true, true, true]);
    assert_eq!(sel.winner(), Some(1));
    let mut none = Select::new(2);
    none.complete_ready(&vec![false, false]);
    assert_eq!(none.winner(), None);
}

#[test]
fn select_with_three_branches() {
    let mut reactor = Reactor::new(10, 0);
    let token = CancelToken::new();
    let listener = TcpListener::new(3, &mut reactor);
    let mut ch: Channel<u32> = Channel::new();
    let mut sel = Select::new(3);
    assert!(matches!(
        listener.accept(&mut reactor, Err(IoError::WouldBlock), &token),
        Step::Yield
    ));
    let sleep = reactor.add_timer(1, 0, 1000);
    let sender = reactor.add_timer(2, 0, 100);
    assert_eq!(ch.recv(0), RecvStep::Wait);
    let mut now = 0;
    while sel.winner().is_none() {
        now += 10;
        for co in reactor.poll(now, &vec![]) {
            if co == 2 {
                assert_eq!(ch.send(42), Ok(Some(0)));
                sel.complete(2);
            } else if co == 1 {
                sel.complete(1);
            }
        }
    }
    assert_eq!(now, 100);
    assert_eq!(sel.winner(), Some(2));
    assert_eq!(sel.losers(), vec![0, 1]);
    assert!(reactor.cancel_timer(sleep));
    assert!(!reactor.cancel_timer(sender));
    assert_eq!(ch.recv(0), RecvStep::Return(Ok(42)));
}

#[test]
fn coroutine_lifecycle() {
    assert_eq!(CoState::Created.next(CoEvent::Enqueue), Some(CoState::Ready));
    assert_eq!(CoState::Ready.next(CoEvent::Resume), Some(CoState::Running));
    assert_eq!(CoState::Running.next(CoEvent::Yield), Some(CoState::Ready));
    assert_eq!(CoState::Running.next(CoEvent::Park), Some(CoState::Parked));
    assert_eq!(CoState::Parked.next(CoEvent::Wake), Some(CoState::Ready));
    assert_eq!(CoState::Parked.next(CoEvent::Resume), None);
    assert_eq!(CoState::Created.next(CoEvent::Resume), None);
    assert_eq!(CoState::Done.next(CoEvent::Wake), None);
    assert_eq!(CoState::Aborted.next(CoEvent::Enqueue), None);
}

#[test]
fn join_returns_the_value() {
    let mut co: Coroutine<u32> = Coroutine::new(4);
    assert_eq!(co.id(), 4);
    assert_eq!(co.state(), CoState::Created);
    assert!(!co.advance(CoEvent::Resume));
    assert!(co.advance(CoEvent::Enqueue));
    assert_eq!(co.finish(Some(1)), None);
    assert_eq!(co.state(), CoState::Ready);
    assert_eq!(co.wait(9), ParkStep::Suspend);
    assert!(co.advance(CoEvent::Resume));
    assert!(!co.is_finished());
    assert_eq!(co.finish(Some(5)), Some(9));
    assert!(co.is_finished());
    assert_eq!(co.wait(9), ParkStep::Proceed);
    assert_eq!(co.abort(), None);
    assert_eq!(co.join(), Ok(5));
}

#[test]
fn join_of_cancelled_coroutine() {
    let mut co: Coroutine<u32> = Coroutine::new(4);
    assert_eq!(co.abort(), None);
    co.advance(CoEvent::Enqueue);
    co.advance(CoEvent::Resume);
    assert_eq!(co.abort(), None);
    assert_eq!(co.state(), CoState::Aborted);
    assert_eq!(co.join(), Err(JoinError::Cancelled));
}

#[test]
fn panic_isolation() {
    let mut flag = Flag::new();
    let mut sched = Scheduler::new(1, 8);
    let mut bad: Coroutine<u32> = Coroutine::new(1);
    let mut good: Coroutine<u32> = Coroutine::new(2);
    for co in [&mut bad, &mut good] {
        co.advance(CoEvent::Enqueue);
        sched.spawn(Some(0), co.id());
    }
    assert_eq!(sched.next_task(0, 0), Some(1));
    bad.advance(CoEvent::Resume);
    let guard = flag.borrow(false).ok().unwrap();
    bad.finish(None);
    flag.done(&guard, true);
    assert_eq!(sched.release(0), Some(1));
    assert_eq!(bad.join(), Err(JoinError::Panicked));
    assert_eq!(sched.next_task(0, 0), Some(2));
    good.advance(CoEvent::Resume);
    assert!(flag.borrow(false).is_err());
    good.finish(Some(7));
    assert_eq!(sched.release(0), Some(2));
    assert_eq!(good.join(), Ok(7));
}
