//! A fixed-size worker pool, stated as a verified dispatch core.
//!
//! The pool keeps the job channel (a FIFO queue), the state of every worker
//! and a ledger of what became of each accepted job. Every operation is a
//! transition of the abstract [`state::PoolState`], and the transitions keep
//! an invariant from which the pool's guarantees are proved: a job is handed
//! to one worker only, a worker leaves only once the intake is closed and the
//! queue is drained, and after a clean wind-down every accepted job is done.
//!
//! Threads, locks and blocking are the caller's business: a worker thread
//! calls [`pool::ThreadPool::claim`] under a lock, runs the job it was given
//! outside the lock and reports back with [`pool::ThreadPool::finish`].

pub mod error;
pub mod laws;
pub mod pool;
pub mod state;
pub mod worker;

pub use error::PoolError;
pub use pool::Claim;
pub use pool::ThreadPool;
pub use state::Event;
pub use state::JobStatus;
pub use state::PoolState;
pub use worker::Worker;
pub use worker::WorkerState;
