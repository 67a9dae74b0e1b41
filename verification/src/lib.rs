//! A fixed-size worker thread pool, modelled and verified at the level of its
//! coordination protocol: a single-producer / multi-consumer job queue, a
//! per-worker lifecycle state machine, and a two-phase teardown (close the
//! producer side, then join every worker in construction order).
//!
//! Jobs are identified by tokens; the pool neither inspects nor interprets
//! them. The operating-system side (spawning threads, the blocking channel,
//! joining) is outside work performed by an unverified shell, which feeds
//! every event it observes through the decision functions verified here.

pub mod laws;
pub mod pool;
pub mod queue;
