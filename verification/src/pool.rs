//! The pool: the workers' records, the job channel and the sending end.

use std::collections::VecDeque;
use vstd::prelude::*;
use crate::error::channel_closed_reason;
use crate::error::sender_missing_reason;
use crate::error::zero_size_reason;
use crate::error::PoolError;
use crate::laws::lemma_accept_inv;
use crate::laws::lemma_claim_inv;
use crate::laws::lemma_close_inv;
use crate::laws::lemma_fault_inv;
use crate::laws::lemma_finish_inv;
use crate::laws::lemma_init_inv;
use crate::state::PoolState;
use crate::worker::Worker;
use crate::worker::WorkerState;

verus! {

/// What a worker is told when it asks for its next job.
pub enum Claim<J> {
    /// Execute this job, then report its completion.
    Run(J),
    /// The channel is empty but open: wait, and ask again.
    Wait,
    /// The channel is empty and closed: leave the loop.
    Exit,
}

/// A fixed set of workers, the channel their jobs wait in, and the sending
/// end through which jobs enter it.
pub struct ThreadPool<J> {
    workers: Vec<Worker>,
    queue: VecDeque<J>,
    sender: bool,
    state: Ghost<PoolState<J>>,
}

impl<J> View for ThreadPool<J> {
    type V = PoolState<J>;

    closed spec fn view(&self) -> PoolState<J> {
        self.state@
    }
}

impl<J> ThreadPool<J> {
    /// The records agree with the abstract state.
    pub closed spec fn agrees(&self) -> bool {
        &&& self.workers@.len() == self@.workers.len()
        &&& forall|i: int|
            0 <= i < self.workers@.len() ==> (#[trigger] self.workers@[i]).id == i
                && self.workers@[i].state == self@.workers[i]
        &&& self.queue@ == self@.queue
        &&& self.sender == self@.open
    }

    /// The pool is well formed: its records agree with its abstract state,
    /// and that state satisfies the invariant.
    pub open spec fn wf(&self) -> bool {
        self.agrees() && self@.inv()
    }

    /// Builds a pool of `size` workers, all idle, with an open and empty
    /// channel. A pool of no workers is refused.
    pub fn build(size: usize) -> (r: Result<ThreadPool<J>, PoolError>)
        ensures
            size == 0 ==> r is Err && r->Err_0 is CreationError && r->Err_0.reason()
                == zero_size_reason(),
            size > 0 ==> r is Ok && r->Ok_0.wf() && r->Ok_0@ == PoolState::<J>::init(size as nat),
            size > 0 ==> r->Ok_0@.size() == size && r->Ok_0@.open && r->Ok_0@.queue.len() == 0
                && r->Ok_0@.jobs.len() == 0,
            size > 0 ==> forall|i: int| 0 <= i < size ==> #[trigger] r->Ok_0@.workers[i] is Idle,
    {
        if size == 0 {
            return Err(PoolError::zero_size());
        }
        let mut workers: Vec<Worker> = Vec::new();
        let mut id: usize = 0;
        while id < size
            invariant
                id <= size,
                workers@.len() == id,
                forall|i: int|
                    0 <= i < id ==> (#[trigger] workers@[i]).id == i && workers@[i].state is Idle,
            decreases size - id,
        {
            workers.push(Worker::new(id));
            id += 1;
        }
        proof {
            lemma_init_inv::<J>(size as nat);
        }
        let pool = ThreadPool {
            workers,
            queue: VecDeque::new(),
            sender: true,
            state: Ghost(PoolState::<J>::init(size as nat)),
        };
        Ok(pool)
    }

    /// The number of workers, fixed when the pool was built.
    pub fn size(&self) -> (n: usize)
        requires
            self.wf(),
        ensures
            n == self@.size(),
            n >= 1,
    {
        self.workers.len()
    }

    /// Whether the sending end is still there.
    pub fn is_open(&self) -> (b: bool)
        requires
            self.wf(),
        ensures
            b == self@.open,
    {
        self.sender
    }

    /// The number of jobs that wait in the channel.
    pub fn pending(&self) -> (n: usize)
        requires
            self.wf(),
        ensures
            n == self@.queue.len(),
    {
        self.queue.len()
    }

    /// Where the worker `id` stands; `None` where the pool has no such worker.
    pub fn worker_state(&self, id: usize) -> (s: Option<WorkerState>)
        requires
            self.wf(),
        ensures
            id < self@.size() ==> s == Some(self@.workers[id as int]),
            id >= self@.size() ==> s is None,
    {
        if id < self.workers.len() {
            Some(self.workers[id].state)
        } else {
            None
        }
    }

    /// Whether some worker can still receive a job.
    pub fn has_live_worker(&self) -> (b: bool)
        requires
            self.wf(),
        ensures
            b == self@.has_live_worker(),
    {
        let mut i: usize = 0;
        while i < self.workers.len()
            invariant
                self.wf(),
                i <= self.workers@.len(),
                forall|k: int| 0 <= k < i ==> !(#[trigger] self@.workers[k]).is_live(),
            decreases self.workers@.len() - i,
        {
            if self.workers[i].state.live() {
                return true;
            }
            i += 1;
        }
        false
    }

    /// Whether every worker has left its loop.
    pub fn is_stopped(&self) -> (b: bool)
        requires
            self.wf(),
        ensures
            b == self@.stopped(),
    {
        !self.has_live_worker()
    }

    /// Submits a job. Where the sending end is there and a worker is left to
    /// receive, the job joins the channel's tail. Otherwise the job is let go
    /// unexecuted, the pool stays as it was, and the error says which of the
    /// two was missing.
    pub fn execute(&mut self, job: J) -> (r: Result<(), PoolError>)
        requires
            old(self).wf(),
        ensures
            final(self).wf(),
            final(self)@ == old(self)@.submit(job),
            r is Ok <==> old(self)@.accepts(),
            r is Err ==> r->Err_0 is SendError,
            !old(self)@.open ==> r is Err && r->Err_0.reason() == sender_missing_reason(),
            old(self)@.open && !old(self)@.has_live_worker() ==> r is Err && r->Err_0.reason()
                == channel_closed_reason(),
    {
        if !self.sender {
            return Err(PoolError::sender_missing());
        }
        if !self.has_live_worker() {
            return Err(PoolError::channel_closed());
        }
        proof {
            lemma_accept_inv(self@, job);
        }
        self.queue.push_back(job);
        self.state = Ghost(self@.accept(job));
        Ok(())
    }

    /// Lets the sending end go: from now on nothing is accepted, and a worker
    /// that finds the channel empty leaves. Jobs that wait stay claimable.
    pub fn close(&mut self)
        requires
            old(self).wf(),
        ensures
            final(self).wf(),
            final(self)@ == old(self)@.close(),
    {
        proof {
            lemma_close_inv(self@);
        }
        self.sender = false;
        self.state = Ghost(self@.close());
    }

    /// The idle worker `id` asks for its next job. It is given the job at the
    /// channel's head and becomes running; or it is told to wait, the channel
    /// being empty and open; or it is told to leave, the channel being empty
    /// and closed, and becomes terminated.
    pub fn claim(&mut self, id: usize) -> (c: Claim<J>)
        requires
            old(self).wf(),
            id < old(self)@.size(),
            old(self)@.workers[id as int] is Idle,
        ensures
            final(self).wf(),
            final(self)@ == old(self)@.claim(id as int),
            match c {
                Claim::Run(job) => old(self)@.queue.len() > 0 && job == old(self)@.queue[0],
                Claim::Wait => old(self)@.queue.len() == 0 && old(self)@.open,
                Claim::Exit => old(self)@.queue.len() == 0 && !old(self)@.open,
            },
    {
        proof {
            lemma_claim_inv(self@, id as int);
        }
        match self.queue.pop_front() {
            Some(job) => {
                self.workers.set(id, Worker { id, state: WorkerState::Running });
                self.state = Ghost(self@.claim(id as int));
                Claim::Run(job)
            },
            None => {
                if self.sender {
                    Claim::Wait
                } else {
                    self.workers.set(id, Worker { id, state: WorkerState::Terminated });
                    self.state = Ghost(self@.claim(id as int));
                    Claim::Exit
                }
            },
        }
    }

    /// The running worker `id` reports that its job is done, and is idle again.
    pub fn finish(&mut self, id: usize)
        requires
            old(self).wf(),
            id < old(self)@.size(),
            old(self)@.workers[id as int] is Running,
        ensures
            final(self).wf(),
            final(self)@ == old(self)@.finish(id as int),
    {
        proof {
            lemma_finish_inv(self@, id as int);
        }
        self.workers.set(id, Worker { id, state: WorkerState::Idle });
        self.state = Ghost(self@.finish(id as int));
    }

    /// The running worker `id` is lost: the job it was executing did not
    /// return. The worker is not replaced.
    pub fn fault(&mut self, id: usize)
        requires
            old(self).wf(),
            id < old(self)@.size(),
            old(self)@.workers[id as int] is Running,
        ensures
            final(self).wf(),
            final(self)@ == old(self)@.fault(id as int),
    {
        proof {
            lemma_fault_inv(self@, id as int);
        }
        self.workers.set(id, Worker { id, state: WorkerState::Faulted });
        self.state = Ghost(self@.fault(id as int));
    }
}

} // verus!
