//! The job queue: an unbounded ordered channel with a single producer side
//! and one shared consumer side. Jobs are delivered in submission order,
//! each to exactly one claimant; once the producer side is closed and the
//! queue has drained, every further claim yields the closure signal.

use vstd::prelude::*;

verus! {

/// The outcome of one claim: either the next job in submission order, or the
/// closure signal, telling the claimant that the producer side is closed and
/// no job remains.
pub enum Claim {
    Job(u64),
    Closed,
}

/// Rejection returned when a job is submitted after the producer side of the
/// queue has been closed.
pub struct QueueClosed;

/// The single-producer / multi-consumer job queue. Jobs are held in
/// submission order; `open` is whether the producer side still exists.
pub struct JobQueue {
    jobs: Vec<u64>,
    open: bool,
}

impl JobQueue {
    /// The jobs submitted but not yet claimed, in submission order.
    pub closed spec fn pending(self) -> Seq<u64> {
        self.jobs@
    }

    /// Whether the producer side is still open for submissions.
    pub closed spec fn is_open(self) -> bool {
        self.open
    }

    /// A fresh queue: open, with nothing pending.
    pub fn new() -> (q: JobQueue)
        ensures
            q.is_open(),
            q.pending() == Seq::<u64>::empty(),
    {
        JobQueue { jobs: Vec::new(), open: true }
    }

    /// Exec mirror of `is_open`.
    pub fn producer_open(&self) -> (r: bool)
        ensures
            r == self.is_open(),
    {
        self.open
    }

    /// How many jobs are pending.
    pub fn pending_count(&self) -> (n: usize)
        ensures
            n == self.pending().len(),
    {
        self.jobs.len()
    }

    /// Submission: appends the job while the producer side is open, and is
    /// rejected — with the queue unchanged — once it has been closed.
    /// Submission never blocks and never loses a job.
    pub fn submit(&mut self, job: u64) -> (r: Result<(), QueueClosed>)
        ensures
            old(self).is_open() ==> {
                &&& r is Ok
                &&& final(self).pending() == old(self).pending().push(job)
                &&& final(self).is_open()
            },
            !old(self).is_open() ==> {
                &&& r is Err
                &&& *final(self) == *old(self)
            },
    {
        if self.open {
            self.jobs.push(job);
            Ok(())
        } else {
            Err(QueueClosed)
        }
    }

    /// Closes the producer side: the sole signal to claimants that no more
    /// work is coming. Pending jobs are untouched. Called exactly once, when
    /// teardown begins.
    pub fn close(&mut self)
        requires
            old(self).is_open(),
        ensures
            !final(self).is_open(),
            final(self).pending() == old(self).pending(),
    {
        self.open = false;
    }

    /// One claim. In the running system a claimant blocks until a job is
    /// available or the producer side has been closed; this model therefore
    /// speaks only of the states in which that wait has resolved, which the
    /// precondition captures. A pending job is removed — delivered to this
    /// claimant alone, exactly once — in submission order; an empty, closed
    /// queue yields the closure signal and stays as it is.
    pub fn claim(&mut self) -> (c: Claim)
        requires
            old(self).pending().len() > 0 || !old(self).is_open(),
        ensures
            old(self).pending().len() > 0 ==> {
                &&& c == Claim::Job(old(self).pending()[0])
                &&& final(self).pending() == old(self).pending().drop_first()
                &&& final(self).is_open() == old(self).is_open()
            },
            old(self).pending().len() == 0 ==> {
                &&& c == Claim::Closed
                &&& *final(self) == *old(self)
            },
    {
        if self.jobs.len() > 0 {
            let job = self.jobs.remove(0);
            assert(self.jobs@ =~= old(self).jobs@.drop_first());
            Claim::Job(job)
        } else {
            Claim::Closed
        }
    }
}

} // verus!
