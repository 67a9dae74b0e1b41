use threadpool::pool::Action;
use threadpool::pool::ThreadPool;
use threadpool::pool::Worker;
use threadpool::queue::Claim;
use threadpool::queue::JobQueue;

#[test]
fn workers_have_distinct_ids() {
    let p = ThreadPool::new(4);
    assert_eq!(p.count(), 4);
    let mut seen = vec![false; 4];
    for i in 0..4 {
        let id = p.worker_id(i);
        assert!(id < 4);
        assert!(!seen[id], "identity {} handed out twice", id);
        seen[id] = true;
        assert!(p.worker_running(i));
    }
    assert!(seen.iter().all(|&s| s));
}

#[test]
fn zero_workers_rejected() {
    assert!(ThreadPool::try_new(0).is_none());
    let p = ThreadPool::try_new(3);
    assert!(p.is_some());
    assert_eq!(p.unwrap().count(), 3);
}

#[test]
fn every_job_claimed_once() {
    let mut p = ThreadPool::new(2);
    for job in 1..=5u64 {
        p.execute(job);
    }
    assert_eq!(p.queued(), 5);
    let ran = p.teardown();
    assert_eq!(ran, vec![1, 2, 3, 4, 5]);
}

#[test]
fn submission_never_lossy() {
    let mut q = JobQueue::new();
    assert!(q.submit(10).is_ok());
    assert!(q.submit(11).is_ok());
    assert_eq!(q.pending_count(), 2);
    match q.claim() {
        Claim::Job(j) => assert_eq!(j, 10),
        Claim::Closed => panic!("first submission lost"),
    }
    match q.claim() {
        Claim::Job(j) => assert_eq!(j, 11),
        Claim::Closed => panic!("second submission lost"),
    }
}

#[test]
fn claim_not_blocked_by_prior_claim() {
    // The first claimed job is still "running" (never reported finished);
    // the second claim must succeed regardless, with the next job in order.
    let mut q = JobQueue::new();
    assert!(q.submit(1).is_ok());
    assert!(q.submit(2).is_ok());
    let first = q.claim();
    assert!(matches!(first, Claim::Job(1)));
    let second = q.claim();
    assert!(matches!(second, Claim::Job(2)));
}

#[test]
fn closed_and_drained_queue_signals_closure() {
    let mut q = JobQueue::new();
    assert!(q.submit(42).is_ok());
    q.close();
    assert!(!q.producer_open());
    assert!(matches!(q.claim(), Claim::Job(42)));
    assert!(matches!(q.claim(), Claim::Closed));
    assert!(matches!(q.claim(), Claim::Closed));
}

#[test]
fn submit_after_close_is_rejected() {
    let mut q = JobQueue::new();
    q.close();
    assert!(q.submit(7).is_err());
    assert_eq!(q.pending_count(), 0);
}

#[test]
fn execute_after_teardown_is_rejected() {
    let mut p = ThreadPool::new(2);
    p.teardown();
    assert!(p.try_execute(1).is_err());
    assert_eq!(p.queued(), 0);
}

#[test]
fn teardown_stops_every_worker() {
    let mut p = ThreadPool::new(3);
    p.execute(1);
    let _ran = p.teardown();
    assert!(!p.producer_open());
    assert!(p.stopped());
    for i in 0..3 {
        assert!(!p.worker_running(i));
    }
}

#[test]
fn teardown_twice_is_safe() {
    let mut p = ThreadPool::new(2);
    p.execute(5);
    let first = p.teardown();
    assert_eq!(first, vec![5]);
    let second = p.teardown();
    assert!(second.is_empty());
    assert!(p.stopped());
}

#[test]
fn six_jobs_on_four_workers_all_collected() {
    let mut p = ThreadPool::new(4);
    for job in 0..6u64 {
        p.execute(job);
    }
    let collector = p.teardown();
    assert_eq!(collector.len(), 6);
    let mut seen = vec![false; 6];
    for job in collector {
        let j = job as usize;
        assert!(j < 6);
        assert!(!seen[j], "job {} ran twice", j);
        seen[j] = true;
    }
    assert!(seen.iter().all(|&s| s), "a job never ran");
}

#[test]
fn release_right_after_submission_terminates_cleanly() {
    let mut p = ThreadPool::new(1);
    p.execute(1);
    p.execute(2);
    p.execute(3);
    let ran = p.teardown();
    assert_eq!(ran, vec![1, 2, 3]);
    assert!(p.stopped());
    assert!(!p.producer_open());
}

#[test]
fn worker_runs_job_and_keeps_looping() {
    let mut w = Worker::new(9);
    assert_eq!(w.ident(), 9);
    assert!(w.is_running());
    let a = w.on_claim(Claim::Job(77));
    assert!(matches!(a, Action::Run(77)));
    assert!(w.is_running());
    assert_eq!(w.finish(), 77);
    let a = w.on_claim(Claim::Job(78));
    assert!(matches!(a, Action::Run(78)));
    assert_eq!(w.finish(), 78);
    assert!(w.is_running());
}

#[test]
fn sleeping_job_does_not_block_others() {
    // Worker 0 claims a job and stays busy with it for the whole test —
    // it never finishes. Worker 1's claim must go through regardless and
    // its job must run to completion.
    let mut p = ThreadPool::new(2);
    p.execute(100); // the sleeper
    p.execute(7); // the quick one
    let a = p.claim_for(0);
    assert!(matches!(a, Action::Run(100)));
    let a = p.claim_for(1);
    assert!(matches!(a, Action::Run(7)));
    assert_eq!(p.finish_for(1), 7);
    // worker 0 is still busy with its sleeper; worker 1 already finished
    assert!(p.worker_running(0));
    assert_eq!(p.finish_for(0), 100);
    p.teardown();
}

#[test]
fn later_job_may_finish_first() {
    // Completion order is not submission order: the job submitted second
    // finishes while the one submitted first is still being executed.
    let mut p = ThreadPool::new(2);
    p.execute(1);
    p.execute(2);
    p.claim_for(0);
    p.claim_for(1);
    let mut completions = Vec::new();
    completions.push(p.finish_for(1));
    completions.push(p.finish_for(0));
    assert_eq!(completions, vec![2, 1]);
    p.teardown();
}

#[test]
fn drained_closed_queue_stops_claiming_worker() {
    let mut p = ThreadPool::new(1);
    p.execute(4);
    let r = p.try_execute(5);
    assert!(r.is_ok());
    let a = p.claim_for(0);
    assert!(matches!(a, Action::Run(4)));
    assert_eq!(p.finish_for(0), 4);
    // teardown drains what the single worker never got to
    let leftover = p.teardown();
    assert_eq!(leftover, vec![5]);
    assert!(p.stopped());
}

#[test]
fn worker_exits_on_closure_signal() {
    let mut w = Worker::new(0);
    let a = w.on_claim(Claim::Closed);
    assert!(matches!(a, Action::Exit));
    assert!(!w.is_running());
}

#[test]
fn join_handle_consumed_exactly_once() {
    let mut w = Worker::new(3);
    assert!(w.handle_present());
    assert!(w.retire());
    assert!(!w.handle_present());
    assert!(!w.is_running());
    assert!(!w.retire());
    assert_eq!(w.ident(), 3);
}

#[test]
fn single_worker_pool() {
    let p = ThreadPool::new(1);
    assert_eq!(p.count(), 1);
    assert_eq!(p.worker_id(0), 0);
    assert!(p.producer_open());
    assert_eq!(p.queued(), 0);
}
