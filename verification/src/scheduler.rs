//! The ready queues of the scheduler and the moves of tasks between them:
//! one bounded local queue and one running slot per worker, and a global
//! queue for overflow and for wakeups from outside. A task is in at most
//! one place at a time.

use vstd::prelude::*;
use std::collections::VecDeque;

verus! {

/// A place that can hold a task.
pub enum Place {
    /// The global queue.
    Global,
    /// The local queue of this worker.
    Local(int),
    /// The running slot of this worker.
    Running(int),
}

/// What a worker does at one turn of its loop.
#[derive(Clone, Copy, PartialEq, Eq, Structural, Debug)]
pub enum WorkerAction {
    /// Resume the coroutine with this id; it is in the worker's running slot.
    Run(u64),
    /// Poll the reactor without waiting, make ready whom it wakes, and
    /// start counting tasks anew.
    Drain,
    /// No task is ready anywhere: poll the reactor and wait there, at
    /// most until the nearest timer.
    Sleep,
}

/// The queues and running slots as plain values.
pub struct SchedState {
    /// The local queue of each worker, oldest task first.
    pub locals: Seq<Seq<u64>>,
    /// The task that each worker runs, if any.
    pub running: Seq<Option<u64>>,
    /// The global queue, oldest task first.
    pub global: Seq<u64>,
    /// The bound on the length of a local queue.
    pub capacity: nat,
}

impl SchedState {
    /// The number of workers.
    pub open spec fn workers(self) -> nat {
        self.locals.len()
    }

    /// Whether task `id` is at place `p`.
    pub open spec fn at(self, p: Place, id: u64) -> bool {
        match p {
            Place::Global => self.global.contains(id),
            Place::Local(w) => 0 <= w < self.locals.len() && self.locals[w].contains(id),
            Place::Running(w) => 0 <= w < self.running.len() && self.running[w] == Some(id),
        }
    }

    /// Whether the scheduler holds task `id` anywhere.
    pub open spec fn holds(self, id: u64) -> bool {
        exists|p: Place| self.at(p, id)
    }

    /// Well-formedness: every worker has a queue and a slot, no local queue
    /// is longer than the bound, no queue holds a task twice, and no task
    /// is at two places.
    pub open spec fn wf(self) -> bool {
        &&& self.locals.len() == self.running.len()
        &&& self.locals.len() > 0
        &&& forall|w: int| 0 <= w < self.locals.len() ==> (#[trigger] self.locals[w]).len() <= self.capacity
        &&& forall|w: int| 0 <= w < self.locals.len() ==> (#[trigger] self.locals[w]).no_duplicates()
        &&& self.global.no_duplicates()
        &&& forall|id: u64, p: Place, q: Place| #[trigger] self.at(p, id) && #[trigger] self.at(q, id) ==> p == q
    }

    /// The place where a task that becomes ready goes: the local queue of
    /// the worker it comes from, if it comes from one whose queue has room,
    /// else the global queue.
    pub open spec fn placement(self, from: Option<usize>) -> Place {
        match from {
            Some(w) => if w < self.locals.len() && self.locals[w as int].len() < self.capacity {
                Place::Local(w as int)
            } else {
                Place::Global
            },
            None => Place::Global,
        }
    }

    /// The state with the running slot of worker `w` holding `task`.
    pub open spec fn with_running(self, w: int, task: Option<u64>) -> SchedState {
        SchedState { running: self.running.update(w, task), ..self }
    }

    /// The oldest task of the queue at `p`.
    pub open spec fn head(self, p: Place) -> u64 {
        match p {
            Place::Local(w) => self.locals[w][0],
            _ => self.global[0],
        }
    }

    /// The state with the oldest task of the queue at `p` removed.
    pub open spec fn with_popped(self, p: Place) -> SchedState {
        match p {
            Place::Local(w) => SchedState {
                locals: self.locals.update(w, self.locals[w].drop_first()),
                ..self
            },
            _ => SchedState { global: self.global.drop_first(), ..self },
        }
    }

    /// The first worker in `lo..hi`, other than `w`, whose local queue
    /// holds a task.
    pub open spec fn first_loaded(self, w: int, lo: int, hi: int) -> Option<int>
        decreases hi - lo,
    {
        if lo >= hi {
            None
        } else if lo != w && 0 <= lo < self.locals.len() && self.locals[lo].len() > 0 {
            Some(lo)
        } else {
            self.first_loaded(w, lo + 1, hi)
        }
    }

    /// The worker that worker `w` steals from: its peers are looked at in
    /// index order from `start` on, then from the first worker up to
    /// `start`, and the first one with a task is taken.
    pub open spec fn victim(self, w: int, start: int) -> Option<int> {
        let upper = self.first_loaded(w, start, self.locals.len() as int);
        if upper is Some {
            upper
        } else {
            self.first_loaded(w, 0, start)
        }
    }

    /// The index at which a search for a peer starts: `start` if it names
    /// a worker, else the first worker.
    pub open spec fn clip(self, start: usize) -> int {
        if start < self.locals.len() {
            start as int
        } else {
            0
        }
    }

    /// The queue that worker `w` takes its next task from: its own, else
    /// the global one, else that of the peer it steals from; none if all
    /// of these are empty.
    pub open spec fn source(self, w: int, start: int) -> Option<Place> {
        if self.locals[w].len() > 0 {
            Some(Place::Local(w))
        } else if self.global.len() > 0 {
            Some(Place::Global)
        } else {
            match self.victim(w, start) {
                Some(v) => Some(Place::Local(v)),
                None => None,
            }
        }
    }

    /// The state after worker `w` took the oldest task of the queue at `p`
    /// to run it.
    pub open spec fn after_take(self, w: int, p: Place) -> SchedState {
        self.with_popped(p).with_running(w, Some(self.head(p)))
    }

    /// The state after the task that worker `w` runs yielded: it leaves
    /// the running slot for the tail of the worker's own queue, or for the
    /// tail of the global queue if the own queue is full.
    pub open spec fn after_yield(self, w: usize) -> SchedState {
        let idle = self.with_running(w as int, None);
        idle.with_pushed(idle.placement(Some(w)), self.running[w as int].unwrap())
    }

    /// The state with task `id` added at the tail of the queue at `p`.
    pub open spec fn with_pushed(self, p: Place, id: u64) -> SchedState {
        match p {
            Place::Local(w) => SchedState {
                locals: self.locals.update(w, self.locals[w].push(id)),
                ..self
            },
            _ => SchedState { global: self.global.push(id), ..self },
        }
    }
}

/// The ready queues and running slots of all workers.
pub struct Scheduler {
    locals: Vec<VecDeque<u64>>,
    running: Vec<Option<u64>>,
    global: VecDeque<u64>,
    capacity: usize,
}

impl View for Scheduler {
    type V = SchedState;

    closed spec fn view(&self) -> SchedState {
        SchedState {
            locals: Seq::new(self.locals@.len(), |w: int| self.locals@[w]@),
            running: self.running@,
            global: self.global@,
            capacity: self.capacity as nat,
        }
    }
}

impl Scheduler {
    /// A scheduler with `workers` workers, at least one, whose local
    /// queues hold up to `capacity` tasks each. Nothing is queued and
    /// nothing runs.
    pub fn new(workers: usize, capacity: usize) -> (sched: Scheduler)
        ensures
            sched@.wf(),
            sched@.workers() == if workers == 0 {
                1
            } else {
                workers
            },
            sched@.capacity == capacity,
            sched@.global.len() == 0,
            forall|w: int| 0 <= w < sched@.workers() ==> (#[trigger] sched@.locals[w]).len() == 0,
            forall|w: int| 0 <= w < sched@.workers() ==> (#[trigger] sched@.running[w]) is None,
            forall|id: u64| !sched@.holds(id),
    {
        let n = if workers == 0 {
            1
        } else {
            workers
        };
        let mut locals: Vec<VecDeque<u64>> = Vec::new();
        let mut running: Vec<Option<u64>> = Vec::new();
        let mut i: usize = 0;
        while i < n
            invariant
                i <= n,
                locals@.len() == i,
                running@.len() == i,
                forall|w: int| 0 <= w < i ==> (#[trigger] locals@[w])@.len() == 0,
                forall|w: int| 0 <= w < i ==> (#[trigger] running@[w]) is None,
            decreases n - i,
        {
            locals.push(VecDeque::new());
            running.push(None);
            i += 1;
        }
        let sched = Scheduler { locals, running, global: VecDeque::new(), capacity };
        proof {
            assert forall|id: u64, p: Place| !sched@.at(p, id) by {
                match p {
                    Place::Local(w) => {
                        if 0 <= w < sched@.locals.len() {
                            assert(sched@.locals[w].len() == 0);
                        }
                    },
                    _ => {},
                }
            }
        }
        sched
    }

    /// The number of workers.
    pub fn workers(&self) -> (n: usize)
        ensures
            n == self@.workers(),
    {
        self.locals.len()
    }

    /// The bound on the length of a local queue.
    pub fn capacity(&self) -> (c: usize)
        ensures
            c == self@.capacity,
    {
        self.capacity
    }

    /// The task that worker `w` runs.
    pub fn running(&self, w: usize) -> (task: Option<u64>)
        requires
            self@.wf(),
            w < self@.workers(),
        ensures
            task == self@.running[w as int],
    {
        self.running[w]
    }

    /// The number of tasks in the local queue of worker `w`.
    pub fn local_len(&self, w: usize) -> (n: usize)
        requires
            w < self@.workers(),
        ensures
            n == self@.locals[w as int].len(),
    {
        self.locals[w].len()
    }

    /// The number of tasks in the global queue.
    pub fn global_len(&self) -> (n: usize)
        ensures
            n == self@.global.len(),
    {
        self.global.len()
    }

    /// Whether the scheduler holds `task` anywhere: in a queue or in a
    /// running slot.
    pub fn holds(&self, task: u64) -> (held: bool)
        requires
            self@.wf(),
        ensures
            held == self@.holds(task),
    {
        if queue_has(&self.global, task) {
            assert(self@.at(Place::Global, task));
            return true;
        }
        let mut w: usize = 0;
        while w < self.locals.len()
            invariant
                w <= self@.workers(),
                self@.wf(),
                !self@.global.contains(task),
                forall|v: int|
                    0 <= v < w ==> !self@.at(Place::Local(v), task) && !self@.at(
                        Place::Running(v),
                        task,
                    ),
            decreases self@.workers() - w,
        {
            let runs = match self.running[w] {
                Some(id) => id == task,
                None => false,
            };
            if runs {
                assert(self@.at(Place::Running(w as int), task));
                return true;
            }
            if queue_has(&self.locals[w], task) {
                assert(self@.at(Place::Local(w as int), task));
                return true;
            }
            w += 1;
        }
        proof {
            assert forall|p: Place| !self@.at(p, task) by {
                match p {
                    Place::Global => {},
                    Place::Local(v) => {
                        if 0 <= v < self@.workers() {
                            assert(!self@.at(Place::Local(v), task));
                        }
                    },
                    Place::Running(v) => {
                        if 0 <= v < self@.workers() {
                            assert(!self@.at(Place::Running(v), task));
                        }
                    },
                }
            }
        }
        false
    }

    /// The first worker in `lo..hi`, other than `w`, whose queue holds a
    /// task.
    fn first_loaded(&self, w: usize, lo: usize, hi: usize) -> (found: Option<usize>)
        requires
            hi <= self@.workers(),
        ensures
            match found {
                Some(v) => self@.first_loaded(w as int, lo as int, hi as int) == Some(v as int),
                None => self@.first_loaded(w as int, lo as int, hi as int) is None,
            },
    {
        let mut v = lo;
        while v < hi
            invariant
                hi <= self@.workers(),
                lo <= v,
                self@.first_loaded(w as int, lo as int, hi as int) == self@.first_loaded(
                    w as int,
                    v as int,
                    hi as int,
                ),
            decreases hi - v,
        {
            if v != w && self.locals[v].len() > 0 {
                return Some(v);
            }
            v += 1;
        }
        None
    }

    /// Gives worker `w`, which runs nothing, its next task: the oldest of
    /// its own queue, else the oldest of the global queue, else the oldest
    /// of the first peer with a task, the peers looked at from `start` on
    /// and around. The task moves to the worker's running slot. The answer
    /// is `None`, and nothing changes, only if no queue holds a task.
    pub fn next_task(&mut self, w: usize, start: usize) -> (task: Option<u64>)
        requires
            old(self)@.wf(),
            w < old(self)@.workers(),
            old(self)@.running[w as int] is None,
        ensures
            final(self)@.wf(),
            match old(self)@.source(w as int, old(self)@.clip(start)) {
                Some(p) => task == Some(old(self)@.head(p)) && final(self)@ == old(self)@.after_take(
                    w as int,
                    p,
                ),
                None => task is None && final(self)@ == old(self)@,
            },
    {
        let ghost before = self@;
        let n = self.locals.len();
        let start = if start < n {
            start
        } else {
            0
        };
        let mut from: Option<usize> = None;
        let task = if self.locals[w].len() > 0 {
            from = Some(w);
            let q = &mut self.locals[w];
            q.pop_front()
        } else if self.global.len() > 0 {
            self.global.pop_front()
        } else {
            let upper = self.first_loaded(w, start, n);
            let victim = if upper.is_some() {
                upper
            } else {
                self.first_loaded(w, 0, start)
            };
            match victim {
                Some(v) => {
                    proof {
                        lemma_first_loaded_is_loaded(before, w as int, start as int, n as int);
                        lemma_first_loaded_is_loaded(before, w as int, 0, start as int);
                    }
                    from = Some(v);
                    let q = &mut self.locals[v];
                    q.pop_front()
                },
                None => None,
            }
        };
        match task {
            Some(id) => {
                self.running.set(w, Some(id));
                proof {
                    let p = before.source(w as int, start as int).unwrap();
                    match from {
                        Some(v) => {
                            assert(p == Place::Local(v as int));
                            assert(self@.locals =~= before.locals.update(
                                v as int,
                                before.locals[v as int].drop_first(),
                            ));
                        },
                        None => {
                            assert(p == Place::Global);
                            assert(self@.locals =~= before.locals);
                        },
                    }
                    assert(self@ == before.after_take(w as int, p));
                    lemma_take_keeps_wf(before, w as int, p);
                }
            },
            None => {
                proof {
                    assert(self@.locals =~= before.locals);
                }
            },
        }
        task
    }

    /// One turn of the loop of worker `w`, which runs nothing and has
    /// resumed `since_poll` tasks since it last polled the reactor. After
    /// every `poll_every` tasks the reactor is drained first, even if
    /// tasks are ready, so that events do not wait behind a long queue;
    /// a `poll_every` of zero asks for no such turns. Otherwise the worker
    /// takes its next task as [`Scheduler::next_task`] says, and sleeps in
    /// the reactor only if there is none.
    pub fn worker_step(&mut self, w: usize, start: usize, since_poll: usize, poll_every: usize) -> (action:
        WorkerAction)
        requires
            old(self)@.wf(),
            w < old(self)@.workers(),
            old(self)@.running[w as int] is None,
        ensures
            final(self)@.wf(),
            if poll_every > 0 && since_poll >= poll_every {
                action == WorkerAction::Drain && final(self)@ == old(self)@
            } else {
                match old(self)@.source(w as int, old(self)@.clip(start)) {
                    Some(p) => action == WorkerAction::Run(old(self)@.head(p)) && final(self)@
                        == old(self)@.after_take(w as int, p),
                    None => action == WorkerAction::Sleep && final(self)@ == old(self)@,
                }
            },
    {
        if poll_every > 0 && since_poll >= poll_every {
            return WorkerAction::Drain;
        }
        match self.next_task(w, start) {
            Some(task) => WorkerAction::Run(task),
            None => WorkerAction::Sleep,
        }
    }

    /// The task that worker `w` runs yields: it goes to the tail of the
    /// worker's own queue, behind everything queued there, or to the tail
    /// of the global queue if the own queue is full. The worker runs
    /// nothing afterwards.
    pub fn yield_now(&mut self, w: usize)
        requires
            old(self)@.wf(),
            w < old(self)@.workers(),
            old(self)@.running[w as int] is Some,
        ensures
            final(self)@.wf(),
            final(self)@ == old(self)@.after_yield(w),
    {
        let task = self.release(w);
        match task {
            Some(id) => {
                let _ = self.spawn(Some(w), id);
            },
            None => {},
        }
    }

    /// Takes the task that worker `w` runs out of the scheduler: it parks
    /// on an event source, which owns it from now on, or it is done.
    pub fn release(&mut self, w: usize) -> (task: Option<u64>)
        requires
            old(self)@.wf(),
            w < old(self)@.workers(),
        ensures
            final(self)@.wf(),
            task == old(self)@.running[w as int],
            final(self)@ == old(self)@.with_running(w as int, None),
            task is Some ==> !final(self)@.holds(task.unwrap()),
    {
        let ghost before = self@;
        let task = self.running[w];
        self.running.set(w, None);
        proof {
            assert(self@.locals =~= before.locals);
            lemma_release_keeps_wf(before, w as int);
        }
        task
    }

    /// Makes `task` ready for the first time, or again after it was
    /// parked. It goes to the tail of the local queue of worker `from`, or
    /// to the tail of the global queue if `from` names no worker or that
    /// worker's queue is full. The answer says whether it went local.
    pub fn spawn(&mut self, from: Option<usize>, task: u64) -> (local: bool)
        requires
            old(self)@.wf(),
            !old(self)@.holds(task),
        ensures
            final(self)@.wf(),
            final(self)@ == old(self)@.with_pushed(old(self)@.placement(from), task),
            local == (old(self)@.placement(from) != Place::Global),
    {
        let ghost before = self@;
        let mut target: Option<usize> = None;
        if let Some(w) = from {
            if w < self.locals.len() {
                if self.locals[w].len() < self.capacity {
                    target = Some(w);
                }
            }
        }
        match target {
            Some(w) => {
                let q = &mut self.locals[w];
                q.push_back(task);
                proof {
                    assert(self@.locals =~= before.locals.update(w as int, before.locals[w as int].push(task)));
                    lemma_push_keeps_wf(before, Place::Local(w as int), task);
                }
                true
            },
            None => {
                self.global.push_back(task);
                proof {
                    assert(self@.locals =~= before.locals);
                    lemma_push_keeps_wf(before, Place::Global, task);
                }
                false
            },
        }
    }
}

/// Adding a task that the scheduler does not hold, at the tail of a queue
/// with room, keeps the state well-formed.
pub proof fn lemma_push_keeps_wf(s: SchedState, p: Place, id: u64)
    requires
        s.wf(),
        !s.holds(id),
        match p {
            Place::Local(w) => 0 <= w < s.locals.len() && s.locals[w].len() < s.capacity,
            Place::Global => true,
            Place::Running(_) => false,
        },
    ensures
        s.with_pushed(p, id).wf(),
        s.with_pushed(p, id).at(p, id),
{
    let t = s.with_pushed(p, id);
    assert forall|x: u64, q: Place| #[trigger] t.at(q, x) implies s.at(q, x) || (q == p && x == id) by {
        match q {
            Place::Global => {
                if p == Place::Global {
                    let i = choose|i: int| 0 <= i < t.global.len() && t.global[i] == x;
                    if i < s.global.len() {
                        assert(s.global[i] == x);
                    }
                }
            },
            Place::Local(w) => {
                if p == Place::Local(w) {
                    let i = choose|i: int| 0 <= i < t.locals[w].len() && t.locals[w][i] == x;
                    if i < s.locals[w].len() {
                        assert(s.locals[w][i] == x);
                    }
                }
            },
            Place::Running(w) => {},
        }
    }
    assert(forall|q: Place| !s.at(q, id));
    match p {
        Place::Local(w) => {
            assert(!s.at(Place::Local(w), id));
            assert(t.locals[w] == s.locals[w].push(id));
            assert(t.locals[w][s.locals[w].len() as int] == id);
            assert forall|v: int| 0 <= v < t.locals.len() implies (#[trigger] t.locals[v]).no_duplicates() && t.locals[v].len() <= t.capacity by {
                if v != w {
                    assert(t.locals[v] == s.locals[v]);
                }
            }
        },
        _ => {
            assert(!s.at(Place::Global, id));
            assert(t.global[s.global.len() as int] == id);
            assert forall|v: int| 0 <= v < t.locals.len() implies (#[trigger] t.locals[v]).no_duplicates() && t.locals[v].len() <= t.capacity by {
                assert(t.locals[v] == s.locals[v]);
            }
        },
    }
}

/// Whether `task` is in the queue.
fn queue_has(queue: &VecDeque<u64>, task: u64) -> (found: bool)
    ensures
        found == queue@.contains(task),
{
    let mut i: usize = 0;
    while i < queue.len()
        invariant
            i <= queue@.len(),
            forall|j: int| 0 <= j < i ==> queue@[j] != task,
        decreases queue@.len() - i,
    {
        if queue[i] == task {
            return true;
        }
        i += 1;
    }
    false
}

/// Why the number of workers could not be set.
#[derive(Clone, Copy, PartialEq, Eq, Structural, Debug)]
pub enum ConfigError {
    /// The scheduler runs already.
    AlreadyInitialized,
}

/// The settings of the scheduler as plain values.
#[derive(Clone, Copy, PartialEq, Eq, Structural, Debug)]
pub struct ConfigState {
    /// The number of workers asked for, if any was.
    pub workers: Option<usize>,
    /// The scheduler was started.
    pub initialized: bool,
}

impl ConfigState {
    /// The number of workers that a start on a machine with `cores` cores
    /// gives: the number asked for, else the number of cores.
    pub open spec fn effective_workers(self, cores: usize) -> usize {
        match self.workers {
            Some(n) => n,
            None => cores,
        }
    }
}

/// The settings of the scheduler, fixed once it starts.
pub struct SchedulerConfig {
    state: ConfigState,
}

impl View for SchedulerConfig {
    type V = ConfigState;

    closed spec fn view(&self) -> ConfigState {
        self.state
    }
}

impl SchedulerConfig {
    pub fn new() -> (config: SchedulerConfig)
        ensures
            config@ == (ConfigState { workers: None, initialized: false }),
    {
        SchedulerConfig { state: ConfigState { workers: None, initialized: false } }
    }

    /// A copy of the settings.
    pub fn state(&self) -> (s: ConfigState)
        ensures
            s == self@,
    {
        self.state
    }

    /// Starts the scheduler on a machine with `cores` cores, with local
    /// queues of `capacity` tasks. It starts once: a second start changes
    /// nothing and gives no scheduler.
    pub fn init(&mut self, cores: usize, capacity: usize) -> (sched: Option<Scheduler>)
        ensures
            final(self)@ == (ConfigState { initialized: true, ..old(self)@ }),
            old(self)@.initialized <==> sched is None,
            match sched {
                Some(s) => {
                    &&& s@.wf()
                    &&& s@.workers() == if old(self)@.effective_workers(cores) == 0 {
                        1
                    } else {
                        old(self)@.effective_workers(cores)
                    }
                    &&& s@.capacity == capacity
                    &&& forall|id: u64| !s@.holds(id)
                },
                None => true,
            },
    {
        if self.state.initialized {
            return None;
        }
        self.state.initialized = true;
        let workers = match self.state.workers {
            Some(n) => n,
            None => cores,
        };
        Some(Scheduler::new(workers, capacity))
    }
}

/// Fixes the number of workers. It is refused, and nothing changes, once
/// the scheduler has started.
pub fn scheduler_set_workers(config: &mut SchedulerConfig, workers: usize) -> (result: Result<
    (),
    ConfigError,
>)
    ensures
        old(config)@.initialized ==> result == Err::<(), ConfigError>(
            ConfigError::AlreadyInitialized,
        ) && final(config)@ == old(config)@,
        !old(config)@.initialized ==> result is Ok && final(config)@ == (ConfigState {
            workers: Some(workers),
            ..old(config)@
        }),
{
    if config.state.initialized {
        Err(ConfigError::AlreadyInitialized)
    } else {
        config.state.workers = Some(workers);
        Ok(())
    }
}

/// The worker found by a search has a task in its queue and is not the
/// searching worker.
pub proof fn lemma_first_loaded_is_loaded(s: SchedState, w: int, lo: int, hi: int)
    ensures
        match s.first_loaded(w, lo, hi) {
            Some(v) => lo <= v < hi && v != w && 0 <= v < s.locals.len() && s.locals[v].len() > 0,
            None => forall|v: int|
                lo <= v < hi && v != w && 0 <= v < s.locals.len() ==> (#[trigger] s.locals[v]).len()
                    == 0,
        },
    decreases hi - lo,
{
    if lo < hi {
        lemma_first_loaded_is_loaded(s, w, lo + 1, hi);
    }
}

/// Moving the oldest task of a queue to the empty running slot of a
/// worker keeps the state well-formed.
pub proof fn lemma_take_keeps_wf(s: SchedState, w: int, p: Place)
    requires
        s.wf(),
        0 <= w < s.locals.len(),
        s.running[w] is None,
        match p {
            Place::Local(v) => 0 <= v < s.locals.len() && s.locals[v].len() > 0,
            Place::Global => s.global.len() > 0,
            Place::Running(_) => false,
        },
    ensures
        s.after_take(w, p).wf(),
        s.after_take(w, p).at(Place::Running(w), s.head(p)),
{
    let x = s.head(p);
    let t = s.after_take(w, p);
    match p {
        Place::Local(v) => {
            assert(s.locals[v][0] == x);
            assert(s.at(p, x));
        },
        _ => {
            assert(s.global[0] == x);
            assert(s.at(p, x));
        },
    }
    assert forall|y: u64, q: Place| #[trigger] t.at(q, y) implies (q == Place::Running(w) && y == x)
        || (q != Place::Running(w) && s.at(q, y) && !(q == p && y == x)) by {
        match q {
            Place::Global => {
                if p == Place::Global {
                    let i = choose|i: int| 0 <= i < t.global.len() && t.global[i] == y;
                    assert(s.global[i + 1] == y);
                    if y == x {
                        assert(s.global[0] == s.global[i + 1]);
                    }
                }
            },
            Place::Local(u) => {
                if p == Place::Local(u) {
                    let i = choose|i: int| 0 <= i < t.locals[u].len() && t.locals[u][i] == y;
                    assert(s.locals[u][i + 1] == y);
                    if y == x {
                        assert(s.locals[u][0] == s.locals[u][i + 1]);
                    }
                }
            },
            Place::Running(u) => {
                if u != w {
                    assert(s.at(q, y));
                }
            },
        }
    }
    assert forall|v: int| 0 <= v < t.locals.len() implies (#[trigger] t.locals[v]).no_duplicates()
        && t.locals[v].len() <= t.capacity by {
        if p == Place::Local(v) {
            assert(t.locals[v] == s.locals[v].drop_first());
            assert forall|i: int, j: int|
                0 <= i < t.locals[v].len() && 0 <= j < t.locals[v].len() && i != j implies t.locals[v][i]
                != t.locals[v][j] by {
                assert(s.locals[v][i + 1] != s.locals[v][j + 1]);
            }
        } else {
            assert(t.locals[v] == s.locals[v]);
        }
    }
    assert(t.global.no_duplicates()) by {
        if p == Place::Global {
            assert forall|i: int, j: int|
                0 <= i < t.global.len() && 0 <= j < t.global.len() && i != j implies t.global[i]
                != t.global[j] by {
                assert(s.global[i + 1] != s.global[j + 1]);
            }
        }
    }
    assert forall|y: u64, q: Place, r: Place| #[trigger] t.at(q, y) && #[trigger] t.at(r, y) implies q
        == r by {
        if q != Place::Running(w) && r != Place::Running(w) {
            assert(s.at(q, y) && s.at(r, y));
        } else if q == Place::Running(w) && r != Place::Running(w) {
            assert(s.at(r, x) && s.at(p, x));
        } else if r == Place::Running(w) && q != Place::Running(w) {
            assert(s.at(q, x) && s.at(p, x));
        }
    }
}

/// Emptying the running slot of a worker keeps the state well-formed, and
/// the task that ran there is nowhere in the scheduler afterwards.
pub proof fn lemma_release_keeps_wf(s: SchedState, w: int)
    requires
        s.wf(),
        0 <= w < s.locals.len(),
    ensures
        s.with_running(w, None).wf(),
        s.running[w] is Some ==> !s.with_running(w, None).holds(s.running[w].unwrap()),
{
    let t = s.with_running(w, None);
    assert forall|y: u64, q: Place| #[trigger] t.at(q, y) implies s.at(q, y) && q != Place::Running(
        w,
    ) by {}
    assert forall|y: u64, q: Place, r: Place| #[trigger] t.at(q, y) && #[trigger] t.at(r, y) implies q
        == r by {
        assert(s.at(q, y) && s.at(r, y));
    }
    if s.running[w] is Some {
        let x = s.running[w].unwrap();
        assert(s.at(Place::Running(w), x));
        assert forall|q: Place| !t.at(q, x) by {
            if t.at(q, x) {
                assert(s.at(q, x));
            }
        }
    }
}

/// No task is owned by two workers: in a well-formed state a task that a
/// worker runs is run by no other worker and waits in no queue, and a task
/// in one worker's queue is in no other queue.
pub proof fn lemma_single_owner(s: SchedState, id: u64, w: int, p: Place)
    requires
        s.wf(),
        s.at(p, id),
    ensures
        s.at(Place::Running(w), id) ==> p == Place::Running(w),
        s.at(Place::Local(w), id) ==> p == Place::Local(w),
        s.at(Place::Global, id) ==> p == Place::Global,
{
}

/// A task that yields goes behind every task that was queued on its
/// worker before: it joins the tail of the worker's queue, which keeps
/// the order of the others, or the tail of the global queue if the own
/// queue is full; and if anything was queued on the worker, the worker's
/// next task is the oldest of that, not the one that yielded.
pub proof fn lemma_yield_is_fifo(s: SchedState, w: usize, start: int)
    requires
        s.wf(),
        w < s.workers(),
        s.running[w as int] is Some,
    ensures
        s.locals[w as int].len() < s.capacity ==> s.after_yield(w).locals[w as int]
            == s.locals[w as int].push(s.running[w as int].unwrap()) && s.after_yield(w).global
            == s.global,
        s.locals[w as int].len() >= s.capacity ==> s.after_yield(w).locals == s.locals
            && s.after_yield(w).global == s.global.push(s.running[w as int].unwrap()),
        s.locals[w as int].len() > 0 ==> s.after_yield(w).source(w as int, start) == Some(
            Place::Local(w as int),
        ) && s.after_yield(w).head(Place::Local(w as int)) == s.locals[w as int][0]
            && s.after_yield(w).head(Place::Local(w as int)) != s.running[w as int].unwrap(),
{
    if s.locals[w as int].len() > 0 {
        let x = s.running[w as int].unwrap();
        assert(s.at(Place::Running(w as int), x));
        assert(s.locals[w as int].contains(s.locals[w as int][0]));
        assert(s.at(Place::Local(w as int), s.locals[w as int][0]));
    }
}

/// A worker goes without a task only when there is none: if its search
/// finds nothing, every local queue and the global queue are empty. So a
/// task that never yields keeps its own worker busy and nobody else, for
/// the tasks queued behind it are taken by its peers.
pub proof fn lemma_idle_means_no_work(s: SchedState, w: int, start: int)
    requires
        s.wf(),
        0 <= w < s.workers(),
        0 <= start <= s.workers(),
        s.source(w, start) is None,
    ensures
        s.global.len() == 0,
        forall|v: int| 0 <= v < s.workers() ==> (#[trigger] s.locals[v]).len() == 0,
{
    lemma_first_loaded_is_loaded(s, w, start, s.locals.len() as int);
    lemma_first_loaded_is_loaded(s, w, 0, start);
}

} // verus!
