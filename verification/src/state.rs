//! The pool's abstract state and its transitions.

use vstd::prelude::*;
use crate::worker::total_weight;
use crate::worker::WorkerState;

verus! {

/// What has become of a job that the pool accepted.
pub enum JobStatus {
    /// It waits in the channel.
    Queued,
    /// The worker of this position is executing it.
    Running(int),
    /// A worker executed it to completion.
    Done,
    /// The worker of this position was lost while executing it.
    Lost(int),
}

impl JobStatus {
    /// Whether one event may take a job from `self` to `next`: it stays where
    /// it is, or leaves the channel for one worker, or leaves that worker as
    /// done or as lost with it.
    pub open spec fn moves_to(self, next: JobStatus) -> bool {
        match self {
            JobStatus::Queued => next is Queued || next is Running,
            JobStatus::Running(i) => next == JobStatus::Running(i) || next is Done || next
                == JobStatus::Lost(i),
            JobStatus::Done => next is Done,
            JobStatus::Lost(i) => next == JobStatus::Lost(i),
        }
    }

    /// Whether a job that stood at `self` may later stand at `later`. A job
    /// only moves forward: from the channel to one worker, and from that
    /// worker to done or lost. Nothing leads back, so no job runs twice.
    pub open spec fn leads_to(self, later: JobStatus) -> bool {
        match self {
            JobStatus::Queued => true,
            JobStatus::Running(i) => later == JobStatus::Running(i) || later is Done || later
                == JobStatus::Lost(i),
            JobStatus::Done => later is Done,
            JobStatus::Lost(i) => later == JobStatus::Lost(i),
        }
    }
}

/// One thing that happens to a pool.
pub enum Event<J> {
    /// A job is submitted.
    Submit(J),
    /// The sending end is let go.
    Close,
    /// The worker of this position asks for its next job.
    Claim(int),
    /// The worker of this position completes its job.
    Finish(int),
    /// The worker of this position is lost with its job.
    Fault(int),
}

/// The pool as contracts see it.
///
/// `jobs` lists every job ever accepted, oldest first; a job's position in it
/// is its ticket. `status` gives the fate of each ticket and `current` the
/// ticket that each running worker holds.
pub struct PoolState<J> {
    pub workers: Seq<WorkerState>,
    pub queue: Seq<J>,
    pub open: bool,
    pub jobs: Seq<J>,
    pub status: Seq<JobStatus>,
    pub current: Seq<int>,
}

impl<J> PoolState<J> {
    /// A fresh pool of `size` idle workers with nothing accepted yet.
    pub open spec fn init(size: nat) -> PoolState<J> {
        PoolState {
            workers: Seq::new(size, |i: int| WorkerState::Idle),
            queue: Seq::empty(),
            open: true,
            jobs: Seq::empty(),
            status: Seq::empty(),
            current: Seq::new(size, |i: int| 0int),
        }
    }

    /// The number of workers.
    pub open spec fn size(self) -> int {
        self.workers.len() as int
    }

    /// How many accepted jobs have left the channel; also the ticket of the
    /// job at the channel's head.
    pub open spec fn claimed(self) -> int {
        self.jobs.len() - self.queue.len()
    }

    /// Some worker can still receive a job.
    pub open spec fn has_live_worker(self) -> bool {
        exists|i: int| 0 <= i < self.workers.len() && (#[trigger] self.workers[i]).is_live()
    }

    /// A submission succeeds: the sending end is there and a receiver is left.
    pub open spec fn accepts(self) -> bool {
        self.open && self.has_live_worker()
    }

    /// Every worker has left its loop because it found the channel closed.
    pub open spec fn wound_down(self) -> bool {
        forall|i: int| 0 <= i < self.workers.len() ==> #[trigger] self.workers[i] is Terminated
    }

    /// Every worker has left its loop, for whatever reason.
    pub open spec fn stopped(self) -> bool {
        forall|i: int| 0 <= i < self.workers.len() ==> !(#[trigger] self.workers[i]).is_live()
    }

    /// What holds of every state that the pool's operations can reach.
    pub open spec fn inv(self) -> bool {
        &&& self.workers.len() >= 1
        &&& self.current.len() == self.workers.len()
        &&& self.status.len() == self.jobs.len()
        &&& self.queue.len() <= self.jobs.len()
        &&& self.queue == self.jobs.subrange(self.claimed(), self.jobs.len() as int)
        &&& forall|k: int|
            0 <= k < self.status.len() ==> ((#[trigger] self.status[k]) is Queued <==> k
                >= self.claimed())
        &&& forall|i: int|
            0 <= i < self.workers.len() && (#[trigger] self.workers[i]) is Running ==> 0
                <= self.current[i] < self.claimed() && self.status[self.current[i]]
                == JobStatus::Running(i)
        &&& forall|k: int|
            0 <= k < self.status.len() ==> match #[trigger] self.status[k] {
                JobStatus::Running(i) => 0 <= i < self.workers.len()
                    && self.workers[i] is Running && self.current[i] == k,
                JobStatus::Lost(i) => 0 <= i < self.workers.len()
                    && self.workers[i] is Faulted,
                _ => true,
            }
        &&& forall|i: int|
            0 <= i < self.workers.len() && (#[trigger] self.workers[i]) is Terminated
                ==> !self.open && self.queue.len() == 0
    }

    /// The state after `job` was accepted: it joins the channel's tail.
    pub open spec fn accept(self, job: J) -> PoolState<J> {
        PoolState {
            queue: self.queue.push(job),
            jobs: self.jobs.push(job),
            status: self.status.push(JobStatus::Queued),
            ..self
        }
    }

    /// The state after a submission: accepted where the pool accepts, and
    /// otherwise without effect.
    pub open spec fn submit(self, job: J) -> PoolState<J> {
        if self.accepts() {
            self.accept(job)
        } else {
            self
        }
    }

    /// The state after the idle worker `id` tried to claim a job: it takes the
    /// channel's head where there is one, waits where the channel is empty
    /// and open, and leaves where it is empty and closed.
    pub open spec fn claim(self, id: int) -> PoolState<J> {
        if self.queue.len() > 0 {
            PoolState {
                workers: self.workers.update(id, WorkerState::Running),
                queue: self.queue.subrange(1, self.queue.len() as int),
                status: self.status.update(self.claimed(), JobStatus::Running(id)),
                current: self.current.update(id, self.claimed()),
                ..self
            }
        } else if self.open {
            self
        } else {
            PoolState { workers: self.workers.update(id, WorkerState::Terminated), ..self }
        }
    }

    /// The state after the running worker `id` completed its job.
    pub open spec fn finish(self, id: int) -> PoolState<J> {
        PoolState {
            workers: self.workers.update(id, WorkerState::Idle),
            status: self.status.update(self.current[id], JobStatus::Done),
            ..self
        }
    }

    /// The state after the running worker `id` was lost with its job.
    pub open spec fn fault(self, id: int) -> PoolState<J> {
        PoolState {
            workers: self.workers.update(id, WorkerState::Faulted),
            status: self.status.update(self.current[id], JobStatus::Lost(id)),
            ..self
        }
    }

    /// The state after the sending end was let go.
    pub open spec fn close(self) -> PoolState<J> {
        PoolState { open: false, ..self }
    }

    /// Whether `event` can happen in this state: only an idle worker claims,
    /// and only a running one finishes or is lost.
    pub open spec fn enabled(self, event: Event<J>) -> bool {
        match event {
            Event::Submit(_) => true,
            Event::Close => true,
            Event::Claim(id) => 0 <= id < self.size() && self.workers[id] is Idle,
            Event::Finish(id) => 0 <= id < self.size() && self.workers[id] is Running,
            Event::Fault(id) => 0 <= id < self.size() && self.workers[id] is Running,
        }
    }

    /// The state after `event`; one that cannot happen leaves the state as it is.
    pub open spec fn step(self, event: Event<J>) -> PoolState<J> {
        if !self.enabled(event) {
            self
        } else {
            match event {
                Event::Submit(job) => self.submit(job),
                Event::Close => self.close(),
                Event::Claim(id) => self.claim(id),
                Event::Finish(id) => self.finish(id),
                Event::Fault(id) => self.fault(id),
            }
        }
    }

    /// The state after the events of `history`, first to last.
    pub open spec fn run(self, history: Seq<Event<J>>) -> PoolState<J>
        decreases history.len(),
    {
        if history.len() == 0 {
            self
        } else {
            self.run(history.drop_last()).step(history.last())
        }
    }

    /// A bound on the worker events that a closed pool can still see: three
    /// for each waiting job, and each worker's own weight. Every worker event
    /// of a closed pool lowers it.
    pub open spec fn work_left(self) -> nat {
        3 * self.queue.len() + total_weight(self.workers)
    }

    /// Whether `history` holds worker events only, each of which could happen
    /// when its turn came.
    pub open spec fn is_worker_activity(self, history: Seq<Event<J>>) -> bool
        decreases history.len(),
    {
        history.len() == 0 || {
            &&& self.is_worker_activity(history.drop_last())
            &&& self.run(history.drop_last()).enabled(history.last())
            &&& !(history.last() is Submit)
            &&& !(history.last() is Close)
        }
    }

    /// The state after the jobs of `batch` were submitted, first to last.
    pub open spec fn submit_all(self, batch: Seq<J>) -> PoolState<J>
        decreases batch.len(),
    {
        if batch.len() == 0 {
            self
        } else {
            self.submit_all(batch.drop_last()).submit(batch.last())
        }
    }
}

} // verus!
