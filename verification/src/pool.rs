//! The worker pool: a fixed set of workers, each a small lifecycle machine
//! (waiting in its claim, busy with one job, or stopped for good), plus the
//! sole producer side of the job queue and the two-phase teardown protocol
//! (close the producer, then join every worker in construction order).

use vstd::prelude::*;

use crate::queue::Claim;
use crate::queue::JobQueue;
use crate::queue::QueueClosed;

verus! {

/// What a worker does in reaction to one claim outcome: run the delivered
/// job to completion on its own thread, or exit its loop for good.
pub enum Action {
    Run(u64),
    Exit,
}

/// A worker's lifecycle state. `Idle` and `Busy` together are the running
/// claim-execute loop: `Idle` is the worker waiting in its claim, `Busy` is
/// the worker executing the job it claimed — held apart so that the
/// contracts can say that one worker's execution never serializes the
/// others' claims. `Stopped` is terminal: the thread has exited and is
/// never revived.
pub enum Lifecycle {
    Idle,
    Busy(u64),
    Stopped,
}

/// One worker: a stable identity, the lifecycle state of its thread's loop,
/// and whether its join handle is still held (it is consumed exactly once,
/// by teardown).
pub struct Worker {
    id: usize,
    state: Lifecycle,
    handle_held: bool,
}

impl Worker {
    /// The worker's identity, unique within its pool and stable for its
    /// lifetime.
    pub closed spec fn id(self) -> usize {
        self.id
    }

    /// The lifecycle state of the worker's loop.
    pub closed spec fn state(self) -> Lifecycle {
        self.state
    }

    /// Whether the worker's join handle has not yet been consumed.
    pub closed spec fn handle_held(self) -> bool {
        self.handle_held
    }

    /// Whether the worker is still in its claim-execute loop, idle or busy.
    pub open spec fn running(self) -> bool {
        !(self.state() is Stopped)
    }

    /// A fresh worker: identified, idle in its loop, join handle held.
    pub fn new(id: usize) -> (w: Worker)
        ensures
            w.id() == id,
            w.state() is Idle,
            w.handle_held(),
    {
        Worker { id, state: Lifecycle::Idle, handle_held: true }
    }

    /// Exec mirror of `id`.
    pub fn ident(&self) -> (r: usize)
        ensures
            r == self.id(),
    {
        self.id
    }

    /// Exec mirror of `running`.
    pub fn is_running(&self) -> (r: bool)
        ensures
            r == self.running(),
    {
        match self.state {
            Lifecycle::Idle => true,
            Lifecycle::Busy(_) => true,
            Lifecycle::Stopped => false,
        }
    }

    /// The head of each iteration of the worker's loop, fed the outcome of
    /// its claim. A delivered job makes the worker busy with exactly that
    /// job, to be run to completion on this thread; the closure signal
    /// makes it exit. Stopping is one-way and terminal: no function of this
    /// library takes a stopped worker back into the loop.
    pub fn on_claim(&mut self, c: Claim) -> (a: Action)
        requires
            old(self).state() is Idle,
        ensures
            final(self).id() == old(self).id(),
            final(self).handle_held() == old(self).handle_held(),
            (c is Job ==> {
                &&& a == Action::Run(c->Job_0)
                &&& final(self).state() == Lifecycle::Busy(c->Job_0)
            }),
            (c is Closed ==> {
                &&& a == Action::Exit
                &&& final(self).state() is Stopped
            }),
    {
        match c {
            Claim::Job(job) => {
                self.state = Lifecycle::Busy(job);
                Action::Run(job)
            },
            Claim::Closed => {
                self.state = Lifecycle::Stopped;
                Action::Exit
            },
        }
    }

    /// The tail of a loop iteration that ran a job: the job has completed,
    /// and the worker — returning its token — goes back to waiting in its
    /// claim. Only the busy worker itself takes part: finishing needs
    /// nothing from, and changes nothing of, any other worker or the queue.
    pub fn finish(&mut self) -> (job: u64)
        requires
            old(self).state() is Busy,
        ensures
            final(self).id() == old(self).id(),
            final(self).handle_held() == old(self).handle_held(),
            final(self).state() is Idle,
            old(self).state() == Lifecycle::Busy(job),
    {
        let job = match self.state {
            Lifecycle::Busy(job) => job,
            _ => {
                // excluded by the precondition: only a busy worker finishes
                assert(false);
                0
            },
        };
        self.state = Lifecycle::Idle;
        job
    }

    /// Exec mirror of `handle_held`.
    pub fn handle_present(&self) -> (r: bool)
        ensures
            r == self.handle_held(),
    {
        self.handle_held
    }

    /// Teardown's per-worker step: take the join handle, leaving an explicit
    /// "already handled" marker, and join the thread. Returns whether the
    /// handle was still there — so a second teardown pass is a safe no-op,
    /// and no handle is ever consumed twice. After this, the worker is known
    /// stopped.
    pub fn retire(&mut self) -> (joined: bool)
        ensures
            final(self).id() == old(self).id(),
            final(self).state() is Stopped,
            !final(self).handle_held(),
            joined == old(self).handle_held(),
    {
        let had_handle = self.handle_held;
        self.handle_held = false;
        self.state = Lifecycle::Stopped;
        had_handle
    }
}

/// The pool: a fixed number of workers — set at construction, never resized —
/// and the sole producer side of the job queue.
pub struct ThreadPool {
    workers: Vec<Worker>,
    queue: JobQueue,
}

impl ThreadPool {
    /// How many workers the pool owns.
    pub closed spec fn worker_count(self) -> nat {
        self.workers@.len()
    }

    /// The worker at construction index `i`.
    pub closed spec fn worker(self, i: int) -> Worker {
        self.workers@[i]
    }

    /// Whether the producer side of the job queue is still open.
    pub closed spec fn is_open(self) -> bool {
        self.queue.is_open()
    }

    /// The jobs submitted but not yet claimed, in submission order.
    pub closed spec fn pending(self) -> Seq<u64> {
        self.queue.pending()
    }

    /// Every worker has stopped and had its join handle consumed.
    pub open spec fn all_stopped(self) -> bool {
        forall|i: int|
            0 <= i < self.worker_count() ==> (#[trigger] self.worker(i)).state() is Stopped
                && !self.worker(i).handle_held()
    }

    /// Well-formedness: the worker at index `i` carries identity `i` (so
    /// identities are distinct and cover `[0, worker_count)`), and while the
    /// producer side is open every worker is still in its claim-execute loop
    /// with its join handle intact.
    pub closed spec fn wf(self) -> bool {
        &&& forall|i: int|
            0 <= i < self.workers@.len() ==> (#[trigger] self.workers@[i]).id() == i
        &&& self.queue.is_open() ==> forall|i: int|
            0 <= i < self.workers@.len() ==> (#[trigger] self.workers@[i]).running()
                && self.workers@[i].handle_held()
    }

    /// Constructs a pool of exactly `size` workers, with identities
    /// `0, 1, ..., size - 1` given out in construction order, all idle in
    /// their loops, sharing one fresh, open, empty job queue. A pool of
    /// zero workers could never make progress, so `size` must be positive.
    pub fn new(size: usize) -> (p: ThreadPool)
        requires
            size >= 1,
        ensures
            p.wf(),
            p.worker_count() == size,
            forall|i: int|
                0 <= i < size ==> (#[trigger] p.worker(i)).id() == i
                    && p.worker(i).state() is Idle && p.worker(i).handle_held(),
            p.is_open(),
            p.pending() == Seq::<u64>::empty(),
    {
        let queue = JobQueue::new();
        let mut workers: Vec<Worker> = Vec::new();
        for id in 0..size
            invariant
                workers@.len() == id,
                forall|i: int|
                    0 <= i < id ==> (#[trigger] workers@[i]).id() == i
                        && workers@[i].state() is Idle && workers@[i].handle_held(),
        {
            workers.push(Worker::new(id));
        }
        ThreadPool { workers, queue }
    }

    /// Construction with the zero-worker precondition made a detectable,
    /// deterministic failure instead: yields no pool exactly when `size` is
    /// zero, and otherwise a pool as `new` builds it.
    pub fn try_new(size: usize) -> (r: Option<ThreadPool>)
        ensures
            (r is None) <==> size == 0,
            r matches Some(p) ==> {
                &&& p.wf()
                &&& p.worker_count() == size
                &&& forall|i: int|
                    0 <= i < size ==> (#[trigger] p.worker(i)).id() == i && p.worker(
                        i,
                    ).state() is Idle && p.worker(i).handle_held()
                &&& p.is_open()
                &&& p.pending() == Seq::<u64>::empty()
            },
    {
        if size == 0 {
            None
        } else {
            Some(ThreadPool::new(size))
        }
    }

    /// Exec mirror of `worker_count`.
    pub fn count(&self) -> (n: usize)
        ensures
            n == self.worker_count(),
    {
        self.workers.len()
    }

    /// Exec mirror of `is_open`.
    pub fn producer_open(&self) -> (r: bool)
        ensures
            r == self.is_open(),
    {
        self.queue.producer_open()
    }

    /// How many submitted jobs have not yet been claimed.
    pub fn queued(&self) -> (n: usize)
        ensures
            n == self.pending().len(),
    {
        self.queue.pending_count()
    }

    /// The identity of the worker at construction index `i`.
    pub fn worker_id(&self, i: usize) -> (id: usize)
        requires
            i < self.worker_count(),
        ensures
            id == self.worker(i as int).id(),
    {
        self.workers[i].ident()
    }

    /// Whether the worker at construction index `i` is still in its loop.
    pub fn worker_running(&self, i: usize) -> (r: bool)
        requires
            i < self.worker_count(),
        ensures
            r == self.worker(i as int).running(),
    {
        self.workers[i].is_running()
    }

    /// Whether every worker has stopped and been joined.
    pub fn stopped(&self) -> (r: bool)
        ensures
            r == self.all_stopped(),
    {
        let mut k: usize = 0;
        while k < self.workers.len()
            invariant
                k <= self.workers@.len(),
                forall|i: int|
                    0 <= i < k ==> (#[trigger] self.worker(i)).state() is Stopped
                        && !self.worker(i).handle_held(),
            decreases self.workers@.len() - k,
        {
            if self.workers[k].is_running() || self.workers[k].handle_present() {
                assert(self.worker(k as int).running() || self.worker(k as int).handle_held());
                return false;
            }
            k += 1;
        }
        true
    }

    /// Submits a job: appended to the queue, to be claimed by some idle
    /// worker, never lost, never reordered past earlier submissions. Must
    /// not be called once teardown has begun.
    pub fn execute(&mut self, job: u64)
        requires
            old(self).wf(),
            old(self).is_open(),
        ensures
            final(self).wf(),
            final(self).is_open(),
            final(self).pending() == old(self).pending().push(job),
            final(self).worker_count() == old(self).worker_count(),
            forall|i: int|
                0 <= i < old(self).worker_count() ==> final(self).worker(i) == old(self).worker(
                    i,
                ),
    {
        let _ = self.queue.submit(job);
    }

    /// Submission with the teardown precondition made a detectable failure
    /// instead: accepted — and appended — exactly while the producer side is
    /// open, rejected with the pool unchanged once teardown has begun.
    pub fn try_execute(&mut self, job: u64) -> (r: Result<(), QueueClosed>)
        requires
            old(self).wf(),
        ensures
            final(self).wf(),
            old(self).is_open() ==> {
                &&& r is Ok
                &&& final(self).is_open()
                &&& final(self).pending() == old(self).pending().push(job)
            },
            !old(self).is_open() ==> {
                &&& r is Err
                &&& *final(self) == *old(self)
            },
            final(self).worker_count() == old(self).worker_count(),
            forall|i: int|
                0 <= i < old(self).worker_count() ==> final(self).worker(i) == old(self).worker(
                    i,
                ),
    {
        self.queue.submit(job)
    }

    /// The worker at index `k` claims once. Mutual exclusion covers the
    /// claim alone: the precondition asks nothing of any other worker — in
    /// particular not that jobs claimed earlier have finished — and every
    /// other worker is left exactly as it was, however many of them are
    /// busy executing. The claimant receives the front job, becoming busy
    /// with it, or — once the queue is closed and drained — the closure
    /// signal, stopping for good.
    pub fn claim_for(&mut self, k: usize) -> (a: Action)
        requires
            old(self).wf(),
            k < old(self).worker_count(),
            old(self).worker(k as int).state() is Idle,
            old(self).pending().len() > 0 || !old(self).is_open(),
        ensures
            final(self).wf(),
            final(self).worker_count() == old(self).worker_count(),
            forall|i: int|
                0 <= i < old(self).worker_count() && i != k ==> final(self).worker(i) == old(
                    self,
                ).worker(i),
            final(self).is_open() == old(self).is_open(),
            old(self).pending().len() > 0 ==> {
                &&& a == Action::Run(old(self).pending()[0])
                &&& final(self).worker(k as int).state() == Lifecycle::Busy(
                    old(self).pending()[0],
                )
                &&& final(self).worker(k as int).running()
                &&& final(self).pending() == old(self).pending().drop_first()
            },
            old(self).pending().len() == 0 ==> {
                &&& a == Action::Exit
                &&& final(self).worker(k as int).state() is Stopped
                &&& final(self).pending() == old(self).pending()
            },
            final(self).worker(k as int).id() == old(self).worker(k as int).id(),
            final(self).worker(k as int).handle_held() == old(self).worker(
                k as int,
            ).handle_held(),
    {
        let c = self.queue.claim();
        self.workers[k].on_claim(c)
    }

    /// The worker at index `k` finishes the job it is busy with and goes
    /// back to waiting in its claim, returning the job's token. Nothing but
    /// that worker changes; the queue is untouched.
    pub fn finish_for(&mut self, k: usize) -> (job: u64)
        requires
            old(self).wf(),
            k < old(self).worker_count(),
            old(self).worker(k as int).state() is Busy,
        ensures
            final(self).wf(),
            final(self).worker_count() == old(self).worker_count(),
            forall|i: int|
                0 <= i < old(self).worker_count() && i != k ==> final(self).worker(i) == old(
                    self,
                ).worker(i),
            final(self).is_open() == old(self).is_open(),
            final(self).pending() == old(self).pending(),
            old(self).worker(k as int).state() == Lifecycle::Busy(job),
            final(self).worker(k as int).state() is Idle,
            final(self).worker(k as int).id() == old(self).worker(k as int).id(),
            final(self).worker(k as int).handle_held() == old(self).worker(
                k as int,
            ).handle_held(),
    {
        self.workers[k].finish()
    }

    /// Two-phase teardown, run when the pool is released. Phase one closes
    /// the producer side — the sole signal that no more work is coming — at
    /// most once. The jobs still pending are then claimed one by one, each
    /// exactly once and in submission order; the tokens are returned in
    /// claim order. Phase two retires every worker in construction order:
    /// each join handle is taken exactly once and the thread joined. The
    /// whole call is a safe no-op on a pool already torn down, and after it
    /// returns no worker is running.
    pub fn teardown(&mut self) -> (ran: Vec<u64>)
        requires
            old(self).wf(),
        ensures
            final(self).wf(),
            !final(self).is_open(),
            final(self).pending() == Seq::<u64>::empty(),
            ran@ == old(self).pending(),
            final(self).all_stopped(),
            final(self).worker_count() == old(self).worker_count(),
            forall|i: int|
                0 <= i < old(self).worker_count() ==> (#[trigger] final(self).worker(
                    i,
                )).id() == old(self).worker(i).id(),
    {
        if self.queue.producer_open() {
            self.queue.close();
        }
        let mut ran: Vec<u64> = Vec::new();
        while self.queue.pending_count() > 0
            invariant
                !self.queue.is_open(),
                ran@ + self.queue.pending() == old(self).pending(),
                self.workers@ == old(self).workers@,
            decreases self.queue.pending().len(),
        {
            let c = self.queue.claim();
            match c {
                Claim::Job(job) => ran.push(job),
                Claim::Closed => {
                    // claim on a non-empty queue always yields a job
                    assert(false);
                },
            }
        }
        assert(ran@ =~= old(self).pending());
        let n = self.workers.len();
        for k in 0..n
            invariant
                n == self.workers@.len(),
                !self.queue.is_open(),
                self.queue.pending() == Seq::<u64>::empty(),
                forall|i: int|
                    0 <= i < n ==> (#[trigger] self.workers@[i]).id() == old(self).worker(i).id(),
                forall|i: int|
                    0 <= i < k ==> (#[trigger] self.workers@[i]).state() is Stopped
                        && !self.workers@[i].handle_held(),
        {
            let _ = self.workers[k].retire();
        }
        ran
    }
}

/// Worker identities are pairwise distinct, and each lies in
/// `[0, worker_count)`: in a well-formed pool the worker at construction
/// index `i` carries identity `i`.
pub proof fn lemma_worker_ids_distinct(p: ThreadPool)
    requires
        p.wf(),
    ensures
        forall|i: int| 0 <= i < p.worker_count() ==> (#[trigger] p.worker(i)).id() == i,
        forall|i: int, j: int|
            0 <= i < p.worker_count() && 0 <= j < p.worker_count() && i != j ==> (
            #[trigger] p.worker(i)).id() != (#[trigger] p.worker(j)).id(),
{
}

} // verus!
