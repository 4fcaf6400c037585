//! The panel-worker pool: one background worker per floating panel, driven by
//! the render loop through a fork/join barrier each frame.
//!
//! The pool itself makes no calls: it decides. Each method takes what just
//! happened (a spawn was asked for, a send finished, a completion signal
//! arrived, a worker was joined) and returns the next [`Action`] for the
//! runtime that owns the threads and channels to perform.
use vstd::prelude::*;

use crate::panel::MAX_THREAD_NR;

verus! {

/// The most workers a pool holds: one for each panel number that a panel can have.
pub const MAX_WORKERS: usize = MAX_THREAD_NR + 1;

/// Where the pool stands.
#[derive(Clone, Copy, Debug, PartialEq, Eq, Structural)]
pub enum Phase {
    /// Between frames.
    Idle,
    /// Handing the frame context to the workers in pool order; `next` is the
    /// worker whose send is under way, `delivered` how many sends before it
    /// reached a live worker.
    Sending { next: usize, delivered: usize },
    /// Waiting for one completion signal from each worker that took the context.
    Gathering { expected: usize, received: usize },
    /// Closing and joining the workers in pool order; `next` is being joined.
    Joining { next: usize },
    /// Every worker has been joined; the pool takes no more work.
    Closed,
}

/// What the runtime does next.
#[derive(Clone, Copy, Debug, PartialEq, Eq, Structural)]
pub enum Action {
    /// Start a worker for panel `thread_nr` and keep its send endpoint.
    SpawnWorker { thread_nr: usize },
    /// Send the frame context to `worker`, blocking until it takes it, then
    /// report whether it did.
    SendContext { worker: usize },
    /// Block until the next completion signal arrives.
    AwaitCompletion,
    /// Every worker that took the context has finished: the frame is done.
    FrameComplete,
    /// Drop the send endpoint of `worker` and join it.
    CloseWorker { worker: usize },
    /// Every worker has been joined.
    ShutdownComplete,
    /// The event does not apply where the pool stands; nothing is to be done.
    Ignored,
}

/// How a shutdown went wrong.
#[derive(Clone, Copy, Debug, PartialEq, Eq, Structural)]
pub enum PoolError {
    /// The worker with this index panicked; it is the first one that did.
    WorkerPanicked { worker: usize },
}

/// The pool as plain values.
pub struct PoolView {
    pub workers: nat,
    pub phase: Phase,
    /// The workers whose join reported a panic, in the order they were joined.
    pub failed: Seq<usize>,
}

impl PoolView {
    pub open spec fn wf(self) -> bool {
        &&& self.workers <= MAX_WORKERS
        &&& match self.phase {
            Phase::Idle => self.failed.len() == 0,
            Phase::Sending { next, delivered } => {
                &&& next < self.workers
                &&& delivered <= next
                &&& self.failed.len() == 0
            },
            Phase::Gathering { expected, received } => {
                &&& 0 < expected <= self.workers
                &&& received < expected
                &&& self.failed.len() == 0
            },
            Phase::Joining { next } => next < self.workers,
            Phase::Closed => true,
        }
    }

    pub open spec fn with_phase(self, phase: Phase) -> PoolView {
        PoolView { phase, ..self }
    }
}

/// A request for one more worker: honoured between frames, below the size limit.
pub open spec fn spawn_step(s: PoolView) -> (PoolView, Action) {
    if s.phase is Idle && s.workers < MAX_WORKERS {
        (PoolView { workers: s.workers + 1, ..s }, Action::SpawnWorker { thread_nr: s.workers as usize })
    } else {
        (s, Action::Ignored)
    }
}

/// The start of a frame: the context goes to worker 0 first.
pub open spec fn drive_step(s: PoolView) -> (PoolView, Action) {
    if s.phase is Idle {
        if s.workers == 0 {
            (s, Action::FrameComplete)
        } else {
            (s.with_phase(Phase::Sending { next: 0, delivered: 0 }), Action::SendContext { worker: 0 })
        }
    } else {
        (s, Action::Ignored)
    }
}

/// A send has finished; `delivered` tells whether the worker took the context.
pub open spec fn send_step(s: PoolView, delivered: bool) -> (PoolView, Action) {
    match s.phase {
        Phase::Sending { next, delivered: d } => {
            let d2: usize = if delivered { (d + 1) as usize } else { d };
            if next + 1 < s.workers {
                (
                    s.with_phase(Phase::Sending { next: (next + 1) as usize, delivered: d2 }),
                    Action::SendContext { worker: (next + 1) as usize },
                )
            } else if d2 == 0 {
                (s.with_phase(Phase::Idle), Action::FrameComplete)
            } else {
                (s.with_phase(Phase::Gathering { expected: d2, received: 0 }), Action::AwaitCompletion)
            }
        },
        _ => (s, Action::Ignored),
    }
}

/// A completion signal has arrived.
pub open spec fn completion_step(s: PoolView) -> (PoolView, Action) {
    match s.phase {
        Phase::Gathering { expected, received } => {
            if received + 1 == expected {
                (s.with_phase(Phase::Idle), Action::FrameComplete)
            } else {
                (
                    s.with_phase(Phase::Gathering { expected, received: (received + 1) as usize }),
                    Action::AwaitCompletion,
                )
            }
        },
        _ => (s, Action::Ignored),
    }
}

/// Shutdown is asked for: workers are closed and joined from the first on.
pub open spec fn shutdown_step(s: PoolView) -> (PoolView, Action) {
    if s.phase is Idle {
        if s.workers == 0 {
            (s.with_phase(Phase::Closed), Action::ShutdownComplete)
        } else {
            (s.with_phase(Phase::Joining { next: 0 }), Action::CloseWorker { worker: 0 })
        }
    } else {
        (s, Action::Ignored)
    }
}

/// A join has finished; `panicked` tells whether the worker had panicked.
pub open spec fn join_step(s: PoolView, panicked: bool) -> (PoolView, Action) {
    match s.phase {
        Phase::Joining { next } => {
            let failed = if panicked { s.failed.push(next) } else { s.failed };
            if next + 1 < s.workers {
                (
                    PoolView { phase: Phase::Joining { next: (next + 1) as usize }, failed, ..s },
                    Action::CloseWorker { worker: (next + 1) as usize },
                )
            } else {
                (PoolView { phase: Phase::Closed, failed, ..s }, Action::ShutdownComplete)
            }
        },
        _ => (s, Action::Ignored),
    }
}

/// How the joins went: the first worker that panicked, if any did.
pub open spec fn outcome_of(s: PoolView) -> Result<(), PoolError> {
    if s.failed.len() == 0 {
        Ok(())
    } else {
        Err(PoolError::WorkerPanicked { worker: s.failed[0] })
    }
}

/// The coordinator of the panel workers.
pub struct ThreadApp {
    workers: usize,
    phase: Phase,
    failed: Vec<usize>,
}

impl View for ThreadApp {
    type V = PoolView;

    closed spec fn view(&self) -> PoolView {
        PoolView { workers: self.workers as nat, phase: self.phase, failed: self.failed@ }
    }
}

impl ThreadApp {
    pub open spec fn wf(&self) -> bool {
        self@.wf()
    }

    fn empty() -> (r: Self)
        ensures
            r.wf(),
            r@ == (PoolView { workers: 0, phase: Phase::Idle, failed: Seq::empty() }),
    {
        ThreadApp { workers: 0, phase: Phase::Idle, failed: Vec::new() }
    }

    /// A pool of two workers, between frames, with the two spawns the runtime
    /// is to perform, in order.
    pub fn new() -> (r: (Self, Vec<Action>))
        ensures
            r.0.wf(),
            r.0@ == (PoolView { workers: 2, phase: Phase::Idle, failed: Seq::empty() }),
            r.1@ == seq![
                Action::SpawnWorker { thread_nr: 0 },
                Action::SpawnWorker { thread_nr: 1 },
            ],
    {
        let mut pool = ThreadApp::empty();
        let first = pool.spawn_worker();
        let second = pool.spawn_worker();
        let spawns = vec![first, second];
        assert(spawns@ =~= seq![
            Action::SpawnWorker { thread_nr: 0 },
            Action::SpawnWorker { thread_nr: 1 },
        ]);
        (pool, spawns)
    }

    /// How many workers the pool holds.
    pub fn len(&self) -> (r: usize)
        ensures
            r as nat == self@.workers,
    {
        self.workers
    }

    pub fn phase(&self) -> (r: Phase)
        ensures
            r == self@.phase,
    {
        self.phase
    }

    /// Adds a worker with the next panel number.
    pub fn spawn_worker(&mut self) -> (r: Action)
        requires
            old(self).wf(),
        ensures
            final(self).wf(),
            (final(self)@, r) == spawn_step(old(self)@),
    {
        if self.phase == Phase::Idle && self.workers < MAX_WORKERS {
            let thread_nr = self.workers;
            self.workers = self.workers + 1;
            Action::SpawnWorker { thread_nr }
        } else {
            Action::Ignored
        }
    }

    /// Starts a frame: the frame context is to reach every worker, in pool order.
    pub fn drive_frame(&mut self) -> (r: Action)
        requires
            old(self).wf(),
        ensures
            final(self).wf(),
            (final(self)@, r) == drive_step(old(self)@),
    {
        if self.phase == Phase::Idle {
            if self.workers == 0 {
                Action::FrameComplete
            } else {
                self.phase = Phase::Sending { next: 0, delivered: 0 };
                Action::SendContext { worker: 0 }
            }
        } else {
            Action::Ignored
        }
    }

    /// The send asked for last has finished.
    pub fn send_finished(&mut self, delivered: bool) -> (r: Action)
        requires
            old(self).wf(),
        ensures
            final(self).wf(),
            (final(self)@, r) == send_step(old(self)@, delivered),
    {
        match self.phase {
            Phase::Sending { next, delivered: d } => {
                let d2: usize = if delivered { d + 1 } else { d };
                if next + 1 < self.workers {
                    self.phase = Phase::Sending { next: next + 1, delivered: d2 };
                    Action::SendContext { worker: next + 1 }
                } else if d2 == 0 {
                    self.phase = Phase::Idle;
                    Action::FrameComplete
                } else {
                    self.phase = Phase::Gathering { expected: d2, received: 0 };
                    Action::AwaitCompletion
                }
            },
            _ => Action::Ignored,
        }
    }

    /// A completion signal has arrived.
    pub fn completion_received(&mut self) -> (r: Action)
        requires
            old(self).wf(),
        ensures
            final(self).wf(),
            (final(self)@, r) == completion_step(old(self)@),
    {
        match self.phase {
            Phase::Gathering { expected, received } => {
                if received + 1 == expected {
                    self.phase = Phase::Idle;
                    Action::FrameComplete
                } else {
                    self.phase = Phase::Gathering { expected, received: received + 1 };
                    Action::AwaitCompletion
                }
            },
            _ => Action::Ignored,
        }
    }

    /// Starts the shutdown: every worker is to be closed and joined, in pool order.
    pub fn shutdown(&mut self) -> (r: Action)
        requires
            old(self).wf(),
        ensures
            final(self).wf(),
            (final(self)@, r) == shutdown_step(old(self)@),
    {
        if self.phase == Phase::Idle {
            if self.workers == 0 {
                self.phase = Phase::Closed;
                Action::ShutdownComplete
            } else {
                self.phase = Phase::Joining { next: 0 };
                Action::CloseWorker { worker: 0 }
            }
        } else {
            Action::Ignored
        }
    }

    /// The join asked for last has finished.
    pub fn join_finished(&mut self, panicked: bool) -> (r: Action)
        requires
            old(self).wf(),
        ensures
            final(self).wf(),
            (final(self)@, r) == join_step(old(self)@, panicked),
    {
        match self.phase {
            Phase::Joining { next } => {
                if panicked {
                    self.failed.push(next);
                }
                if next + 1 < self.workers {
                    self.phase = Phase::Joining { next: next + 1 };
                    Action::CloseWorker { worker: next + 1 }
                } else {
                    self.phase = Phase::Closed;
                    Action::ShutdownComplete
                }
            },
            _ => Action::Ignored,
        }
    }

    /// The result of the shutdown: an error names the first worker that panicked.
    pub fn outcome(&self) -> (r: Result<(), PoolError>)
        ensures
            r == outcome_of(self@),
    {
        if self.failed.len() == 0 {
            Ok(())
        } else {
            Err(PoolError::WorkerPanicked { worker: self.failed[0] })
        }
    }
}

/// The frame after `n` sends that all reached their worker: `n == 0` is the
/// start of the frame.
pub open spec fn after_sends(s: PoolView, n: nat) -> (PoolView, Action)
    decreases n,
{
    if n == 0 {
        drive_step(s)
    } else {
        send_step(after_sends(s, (n - 1) as nat).0, true)
    }
}

/// The frame after every worker took the context and `k` completion signals arrived.
pub open spec fn after_completions(s: PoolView, k: nat) -> (PoolView, Action)
    decreases k,
{
    if k == 0 {
        after_sends(s, s.workers)
    } else {
        completion_step(after_completions(s, (k - 1) as nat).0)
    }
}

/// The shutdown after `n` joins, the join of worker `i` reporting a panic
/// when `panics[i]` holds.
pub open spec fn after_joins(s: PoolView, panics: Seq<bool>, n: nat) -> (PoolView, Action)
    decreases n,
{
    if n == 0 {
        shutdown_step(s)
    } else {
        join_step(after_joins(s, panics, (n - 1) as nat).0, panics[n - 1])
    }
}

/// The indices below `n` whose join reported a panic, in increasing order.
pub open spec fn panicked_workers(panics: Seq<bool>, n: nat) -> Seq<usize>
    decreases n,
{
    if n == 0 {
        Seq::empty()
    } else if panics[n - 1] {
        panicked_workers(panics, (n - 1) as nat).push((n - 1) as usize)
    } else {
        panicked_workers(panics, (n - 1) as nat)
    }
}

/// Every worker of the pool is handed the frame context, in pool order: the
/// `i`-th send of a frame goes to worker `i`.
pub proof fn lemma_frame_reaches_every_worker(s: PoolView, i: nat)
    requires
        s.wf(),
        s.phase is Idle,
        i < s.workers,
    ensures
        after_sends(s, i) == (
            s.with_phase(Phase::Sending { next: i as usize, delivered: i as usize }),
            Action::SendContext { worker: i as usize },
        ),
    decreases i,
{
    if i > 0 {
        lemma_frame_reaches_every_worker(s, (i - 1) as nat);
    }
}

/// A worker spawned between frames is handed the context of the next frame.
pub proof fn lemma_spawned_worker_is_driven(s: PoolView)
    requires
        s.wf(),
        s.phase is Idle,
        s.workers < MAX_WORKERS,
    ensures
        spawn_step(s).1 == (Action::SpawnWorker { thread_nr: s.workers as usize }),
        spawn_step(s).0.workers == s.workers + 1,
        after_sends(spawn_step(s).0, s.workers).1 == (Action::SendContext {
            worker: s.workers as usize,
        }),
{
    lemma_frame_reaches_every_worker(spawn_step(s).0, s.workers);
}

/// With `N` workers that all take the context, a frame completes on exactly
/// the `N`-th completion signal, and not before; the pool is then as it was
/// before the frame.
pub proof fn lemma_frame_waits_for_every_completion(s: PoolView, k: nat)
    requires
        s.wf(),
        s.phase is Idle,
        k <= s.workers,
    ensures
        after_completions(s, k).1 == Action::FrameComplete <==> k == s.workers,
        k == s.workers ==> after_completions(s, k).0 == s,
        k < s.workers ==> after_completions(s, k) == (
            s.with_phase(Phase::Gathering { expected: s.workers as usize, received: k as usize }),
            Action::AwaitCompletion,
        ),
    decreases k,
{
    if s.workers > 0 {
        lemma_frame_reaches_every_worker(s, (s.workers - 1) as nat);
        assert(after_sends(s, s.workers) == after_sends(s, (s.workers - 1 + 1) as nat));
    }
    if k > 0 {
        lemma_frame_waits_for_every_completion(s, (k - 1) as nat);
    }
}

proof fn lemma_panicked_workers(panics: Seq<bool>, n: nat)
    requires
        n <= panics.len(),
        n <= MAX_WORKERS,
    ensures
        panicked_workers(panics, n).len() == 0 <==> forall|i: int| 0 <= i < n ==> !panics[i],
        panicked_workers(panics, n).len() > 0 ==> {
            let w = panicked_workers(panics, n)[0] as int;
            &&& 0 <= w < n
            &&& panics[w]
            &&& forall|i: int| 0 <= i < w ==> !panics[i]
        },
    decreases n,
{
    if n > 0 {
        lemma_panicked_workers(panics, (n - 1) as nat);
    }
}

proof fn lemma_joins_in_order(s: PoolView, panics: Seq<bool>, n: nat)
    requires
        s.wf(),
        s.phase is Idle,
        panics.len() == s.workers,
        n <= s.workers,
    ensures
        n < s.workers ==> after_joins(s, panics, n) == (
            PoolView {
                phase: Phase::Joining { next: n as usize },
                failed: panicked_workers(panics, n),
                ..s
            },
            Action::CloseWorker { worker: n as usize },
        ),
        n == s.workers ==> after_joins(s, panics, n) == (
            PoolView { phase: Phase::Closed, failed: panicked_workers(panics, n), ..s },
            Action::ShutdownComplete,
        ),
    decreases n,
{
    assert(s.failed =~= Seq::empty());
    if n > 0 {
        lemma_joins_in_order(s, panics, (n - 1) as nat);
    }
}

/// Shutdown closes and joins every worker once, in pool order, and only
/// then completes; the closed pool answers no further request; its outcome
/// is an error exactly when some worker panicked, and names the first one.
pub proof fn lemma_shutdown_joins_every_worker(s: PoolView, panics: Seq<bool>)
    requires
        s.wf(),
        s.phase is Idle,
        panics.len() == s.workers,
    ensures
        forall|i: nat|
            i < s.workers ==> (#[trigger] after_joins(s, panics, i)).1 == (Action::CloseWorker {
                worker: i as usize,
            }),
        after_joins(s, panics, s.workers).1 == Action::ShutdownComplete,
        after_joins(s, panics, s.workers).0.phase == Phase::Closed,
        ({
            let c = after_joins(s, panics, s.workers).0;
            &&& spawn_step(c) == (c, Action::Ignored)
            &&& drive_step(c) == (c, Action::Ignored)
            &&& send_step(c, true) == (c, Action::Ignored)
            &&& completion_step(c) == (c, Action::Ignored)
            &&& shutdown_step(c) == (c, Action::Ignored)
            &&& join_step(c, true) == (c, Action::Ignored)
            &&& (outcome_of(c) is Ok <==> forall|i: int| 0 <= i < s.workers ==> !panics[i])
            &&& (outcome_of(c) matches Err(PoolError::WorkerPanicked { worker }) ==> {
                &&& worker < s.workers
                &&& panics[worker as int]
                &&& forall|i: int| 0 <= i < worker ==> !panics[i]
            })
        }),
{
    assert forall|i: nat| i < s.workers implies (#[trigger] after_joins(s, panics, i)).1 == (
    Action::CloseWorker { worker: i as usize }) by {
        lemma_joins_in_order(s, panics, i);
    }
    lemma_joins_in_order(s, panics, s.workers);
    lemma_panicked_workers(panics, s.workers);
}

} // verus!
