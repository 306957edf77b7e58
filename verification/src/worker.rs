//! One worker of the pool: its identity and where it stands in its loop.

use vstd::prelude::*;

verus! {

/// Where a worker stands in its execution loop.
///
/// A worker starts `Idle`, is `Running` while it executes a job it claimed,
/// and returns to `Idle` when the job is finished. `Terminated` and `Faulted`
/// are final: the first is reached when the worker finds the channel closed
/// and drained, the second when a job it was running did not return.
#[derive(Clone, Copy, Debug, PartialEq, Eq, Structural)]
pub enum WorkerState {
    Idle,
    Running,
    Terminated,
    Faulted,
}

impl WorkerState {
    /// The worker can still claim or finish work.
    pub open spec fn is_live(self) -> bool {
        self is Idle || self is Running
    }

    /// How many steps the worker is from leaving, at the least: a running
    /// worker must finish and an idle one must find the channel closed.
    pub open spec fn weight(self) -> nat {
        match self {
            WorkerState::Idle => 1,
            WorkerState::Running => 2,
            WorkerState::Terminated => 0,
            WorkerState::Faulted => 0,
        }
    }

    /// Whether the worker can still claim or finish work.
    pub fn live(&self) -> (b: bool)
        ensures
            b == self.is_live(),
    {
        match self {
            WorkerState::Idle => true,
            WorkerState::Running => true,
            WorkerState::Terminated => false,
            WorkerState::Faulted => false,
        }
    }
}

/// The weights of `workers`, added up.
pub open spec fn total_weight(workers: Seq<WorkerState>) -> nat
    decreases workers.len(),
{
    if workers.len() == 0 {
        0
    } else {
        total_weight(workers.drop_last()) + workers.last().weight()
    }
}

/// A worker's record in the pool. The identity is its position in the pool
/// and serves diagnostics only: no scheduling decision reads it.
#[derive(Clone, Copy, Debug)]
pub struct Worker {
    pub id: usize,
    pub state: WorkerState,
}

impl Worker {
    /// A worker that has just been started and waits for its first job.
    pub fn new(id: usize) -> (w: Worker)
        ensures
            w.id == id,
            w.state is Idle,
    {
        Worker { id, state: WorkerState::Idle }
    }
}

} // verus!
