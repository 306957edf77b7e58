//! What the pool guarantees, proved of its abstract state.

use vstd::prelude::*;
use crate::state::Event;
use crate::state::JobStatus;
use crate::state::PoolState;
use crate::worker::total_weight;
use crate::worker::WorkerState;

verus! {

/// A fresh pool satisfies the invariant.
pub proof fn lemma_init_inv<J>(size: nat)
    requires
        size >= 1,
    ensures
        PoolState::<J>::init(size).inv(),
        PoolState::<J>::init(size).accepts(),
{
    let s = PoolState::<J>::init(size);
    assert(s.queue =~= s.jobs.subrange(s.claimed(), s.jobs.len() as int));
    assert(s.workers[0].is_live());
}

/// Accepting a job keeps the invariant.
pub proof fn lemma_accept_inv<J>(s: PoolState<J>, job: J)
    requires
        s.inv(),
        s.open,
    ensures
        s.accept(job).inv(),
{
    let t = s.accept(job);
    assert(t.queue =~= t.jobs.subrange(t.claimed(), t.jobs.len() as int));
}

/// A claim by an idle worker keeps the invariant.
pub proof fn lemma_claim_inv<J>(s: PoolState<J>, id: int)
    requires
        s.inv(),
        0 <= id < s.size(),
        s.workers[id] is Idle,
    ensures
        s.claim(id).inv(),
{
    let t = s.claim(id);
    if s.queue.len() > 0 {
        assert(t.queue =~= t.jobs.subrange(t.claimed(), t.jobs.len() as int));
    }
}

/// The completion of a running worker's job keeps the invariant.
pub proof fn lemma_finish_inv<J>(s: PoolState<J>, id: int)
    requires
        s.inv(),
        0 <= id < s.size(),
        s.workers[id] is Running,
    ensures
        s.finish(id).inv(),
{
}

/// The loss of a running worker keeps the invariant.
pub proof fn lemma_fault_inv<J>(s: PoolState<J>, id: int)
    requires
        s.inv(),
        0 <= id < s.size(),
        s.workers[id] is Running,
    ensures
        s.fault(id).inv(),
{
}

/// Letting the sending end go keeps the invariant.
pub proof fn lemma_close_inv<J>(s: PoolState<J>)
    requires
        s.inv(),
    ensures
        s.close().inv(),
{
}

/// One event keeps the invariant.
pub proof fn lemma_step_inv<J>(s: PoolState<J>, event: Event<J>)
    requires
        s.inv(),
    ensures
        s.step(event).inv(),
{
    if s.enabled(event) {
        match event {
            Event::Submit(job) => {
                if s.accepts() {
                    lemma_accept_inv(s, job);
                }
            },
            Event::Close => lemma_close_inv(s),
            Event::Claim(id) => lemma_claim_inv(s, id),
            Event::Finish(id) => lemma_finish_inv(s, id),
            Event::Fault(id) => lemma_fault_inv(s, id),
        }
    }
}

/// Whatever happens to a pool, in whatever order, the invariant holds.
pub proof fn lemma_run_inv<J>(s: PoolState<J>, history: Seq<Event<J>>)
    requires
        s.inv(),
    ensures
        s.run(history).inv(),
    decreases history.len(),
{
    if history.len() > 0 {
        lemma_run_inv(s, history.drop_last());
        lemma_step_inv(s.run(history.drop_last()), history.last());
    }
}

/// No two workers execute the same job: two running workers hold different
/// tickets.
pub proof fn lemma_no_shared_job<J>(s: PoolState<J>, a: int, b: int)
    requires
        s.inv(),
        0 <= a < s.size(),
        0 <= b < s.size(),
        a != b,
        s.workers[a] is Running,
        s.workers[b] is Running,
    ensures
        s.current[a] != s.current[b],
{
}

/// Jobs leave the channel in the order in which they were accepted: the job
/// that a worker is handed is the oldest that nobody has claimed yet, and the
/// worker holds its ticket.
pub proof fn lemma_claims_in_order<J>(s: PoolState<J>, id: int)
    requires
        s.inv(),
        0 <= id < s.size(),
        s.workers[id] is Idle,
        s.queue.len() > 0,
    ensures
        s.queue[0] == s.jobs[s.claimed()],
        s.claim(id).current[id] == s.claimed(),
        s.claim(id).status[s.claimed()] == JobStatus::Running(id),
        s.claim(id).claimed() == s.claimed() + 1,
        s.claim(id).jobs == s.jobs,
{
}

/// One event leaves the list of accepted jobs as it was, but for a job it
/// adds at the end, and moves each job's status forward only.
pub proof fn lemma_step_forward<J>(s: PoolState<J>, event: Event<J>, ticket: int)
    requires
        s.inv(),
        0 <= ticket < s.jobs.len(),
    ensures
        ticket < s.step(event).jobs.len(),
        s.step(event).jobs[ticket] == s.jobs[ticket],
        s.status[ticket].moves_to(s.step(event).status[ticket]),
        s.status[ticket].leads_to(s.step(event).status[ticket]),
{
}

/// The pool's size is fixed, and a worker that has left does not come back:
/// through any history the number of workers stays what it was, and a worker
/// that is terminated or lost stays so.
pub proof fn lemma_gone_stays_gone<J>(s: PoolState<J>, history: Seq<Event<J>>, id: int)
    requires
        0 <= id < s.size(),
    ensures
        s.run(history).size() == s.size(),
        s.workers[id] is Terminated ==> s.run(history).workers[id] is Terminated,
        s.workers[id] is Faulted ==> s.run(history).workers[id] is Faulted,
    decreases history.len(),
{
    if history.len() > 0 {
        lemma_gone_stays_gone(s, history.drop_last(), id);
    }
}

/// No job runs twice: through any history an accepted job keeps its ticket,
/// and its status moves forward only. One that is done stays done, and one
/// that a worker holds is never handed to another.
pub proof fn lemma_run_forward<J>(s: PoolState<J>, history: Seq<Event<J>>, ticket: int)
    requires
        s.inv(),
        0 <= ticket < s.jobs.len(),
    ensures
        ticket < s.run(history).jobs.len(),
        s.run(history).jobs[ticket] == s.jobs[ticket],
        s.status[ticket].leads_to(s.run(history).status[ticket]),
    decreases history.len(),
{
    if history.len() > 0 {
        let mid = s.run(history.drop_last());
        lemma_run_forward(s, history.drop_last(), ticket);
        lemma_run_inv(s, history.drop_last());
        lemma_step_forward(mid, history.last(), ticket);
    }
}

/// A batch submitted to a pool that accepts is accepted whole and in order:
/// the jobs join the channel's tail, each of them queued, and nothing else
/// changes.
pub proof fn lemma_submit_all<J>(s: PoolState<J>, batch: Seq<J>)
    requires
        s.inv(),
        s.accepts(),
    ensures
        s.submit_all(batch).inv(),
        s.submit_all(batch).accepts(),
        s.submit_all(batch).jobs == s.jobs + batch,
        s.submit_all(batch).queue == s.queue + batch,
        s.submit_all(batch).workers == s.workers,
        s.submit_all(batch).current == s.current,
        forall|k: int|
            s.jobs.len() <= k < s.jobs.len() + batch.len() ==> #[trigger] s.submit_all(
                batch,
            ).status[k] is Queued,
    decreases batch.len(),
{
    if batch.len() > 0 {
        lemma_submit_all(s, batch.drop_last());
        lemma_accept_inv(s.submit_all(batch.drop_last()), batch.last());
    }
}

/// Once the sending end is gone nothing is accepted any more: through any
/// later history the pool stays closed and the list of accepted jobs stays
/// as it was, so a job submitted then is never executed.
pub proof fn lemma_closed_accepts_nothing<J>(s: PoolState<J>, history: Seq<Event<J>>)
    requires
        !s.open,
    ensures
        !s.run(history).open,
        s.run(history).jobs == s.jobs,
    decreases history.len(),
{
    if history.len() > 0 {
        lemma_closed_accepts_nothing(s, history.drop_last());
    }
}

/// A worker leaves only when no work is left: once every worker has found the
/// channel closed and left, the channel is empty and every job that was ever
/// accepted is done.
pub proof fn lemma_wound_down_all_done<J>(s: PoolState<J>)
    requires
        s.inv(),
        s.wound_down(),
    ensures
        !s.open,
        s.queue.len() == 0,
        s.claimed() == s.jobs.len(),
        forall|k: int| 0 <= k < s.jobs.len() ==> #[trigger] s.status[k] is Done,
{
    assert(s.workers[0] is Terminated);
}

/// Where every worker has left its loop, some of them lost, no job is still
/// being executed: each accepted job is done, or was lost with a worker, or
/// still waits in a channel that nobody reads.
pub proof fn lemma_stopped_nothing_running<J>(s: PoolState<J>, ticket: int)
    requires
        s.inv(),
        s.stopped(),
        0 <= ticket < s.jobs.len(),
    ensures
        !s.accepts(),
        s.status[ticket] is Done || s.status[ticket] is Lost || s.status[ticket] is Queued,
        s.status[ticket] is Queued ==> s.workers[0] is Faulted,
{
}

/// From construction to wind-down: whatever was submitted to a pool and in
/// whatever order its workers claimed and finished, once every worker has
/// left after finding the channel closed, each accepted job is done.
pub proof fn lemma_every_job_done<J>(size: nat, history: Seq<Event<J>>)
    requires
        size >= 1,
        PoolState::<J>::init(size).run(history).wound_down(),
    ensures
        PoolState::<J>::init(size).run(history).inv(),
        forall|k: int|
            0 <= k < PoolState::<J>::init(size).run(history).jobs.len()
                ==> #[trigger] PoolState::<J>::init(size).run(history).status[k] is Done,
{
    lemma_init_inv::<J>(size);
    lemma_run_inv(PoolState::<J>::init(size), history);
    lemma_wound_down_all_done(PoolState::<J>::init(size).run(history));
}

/// No job of a batch is lost: where a batch was submitted to a pool that
/// accepts, then whatever happened next, once every worker has left after
/// finding the channel closed, each job of the batch stands in the list of
/// accepted jobs, at the ticket it was given, and is done.
pub proof fn lemma_submitted_batch_done<J>(
    s: PoolState<J>,
    batch: Seq<J>,
    history: Seq<Event<J>>,
    n: int,
)
    requires
        s.inv(),
        s.accepts(),
        0 <= n < batch.len(),
        s.submit_all(batch).run(history).wound_down(),
    ensures
        s.jobs.len() + n < s.submit_all(batch).run(history).jobs.len(),
        s.submit_all(batch).run(history).jobs[s.jobs.len() + n] == batch[n],
        s.submit_all(batch).run(history).status[s.jobs.len() + n] is Done,
{
    let submitted = s.submit_all(batch);
    lemma_submit_all(s, batch);
    lemma_run_inv(submitted, history);
    lemma_run_forward(submitted, history, s.jobs.len() + n);
    lemma_wound_down_all_done(submitted.run(history));
}

/// Replacing one worker's state changes the total weight by the difference
/// of the two weights.
pub proof fn lemma_weight_update(workers: Seq<WorkerState>, id: int, state: WorkerState)
    requires
        0 <= id < workers.len(),
    ensures
        total_weight(workers.update(id, state)) + workers[id].weight() == total_weight(workers)
            + state.weight(),
    decreases workers.len(),
{
    let after = workers.update(id, state);
    if id == workers.len() - 1 {
        assert(after.drop_last() =~= workers.drop_last());
    } else {
        lemma_weight_update(workers.drop_last(), id, state);
        assert(after.drop_last() =~= workers.drop_last().update(id, state));
    }
}

/// The total weight is zero exactly when every worker has left its loop.
pub proof fn lemma_weight_zero(workers: Seq<WorkerState>)
    ensures
        total_weight(workers) == 0 <==> forall|i: int|
            0 <= i < workers.len() ==> !(#[trigger] workers[i]).is_live(),
    decreases workers.len(),
{
    if workers.len() > 0 {
        let init = workers.drop_last();
        lemma_weight_zero(init);
        if total_weight(workers) == 0 {
            assert forall|i: int| 0 <= i < workers.len() implies !(#[trigger] workers[i]).is_live() by {
                if i < init.len() {
                    assert(!init[i].is_live());
                }
            }
        }
    }
}

/// Once the sending end is gone, every worker event uses up work: a claim, a
/// completion or a loss that could happen leaves strictly less to do.
pub proof fn lemma_closed_step_uses_work<J>(s: PoolState<J>, event: Event<J>)
    requires
        s.inv(),
        !s.open,
        s.enabled(event),
        !(event is Submit),
        !(event is Close),
    ensures
        s.step(event).work_left() < s.work_left(),
        !s.step(event).open,
{
    match event {
        Event::Claim(id) => {
            if s.queue.len() > 0 {
                lemma_weight_update(s.workers, id, WorkerState::Running);
            } else {
                lemma_weight_update(s.workers, id, WorkerState::Terminated);
            }
        },
        Event::Finish(id) => lemma_weight_update(s.workers, id, WorkerState::Idle),
        Event::Fault(id) => lemma_weight_update(s.workers, id, WorkerState::Faulted),
        _ => {},
    }
}

/// A closed pool winds down in bounded time: the worker events that can
/// still happen are no more than the work that was left, less what is left
/// after them.
pub proof fn lemma_closed_activity_bounded<J>(s: PoolState<J>, history: Seq<Event<J>>)
    requires
        s.inv(),
        !s.open,
        s.is_worker_activity(history),
    ensures
        s.run(history).inv(),
        !s.run(history).open,
        history.len() + s.run(history).work_left() <= s.work_left(),
    decreases history.len(),
{
    if history.len() > 0 {
        lemma_closed_activity_bounded(s, history.drop_last());
        lemma_closed_step_uses_work(s.run(history.drop_last()), history.last());
        lemma_step_inv(s.run(history.drop_last()), history.last());
    }
}

/// A closed pool is never stuck before every worker has left: a worker that
/// is still live can claim or finish, and where no work is left every worker
/// has left.
pub proof fn lemma_closed_pool_progresses<J>(s: PoolState<J>)
    requires
        s.inv(),
        !s.open,
    ensures
        forall|id: int|
            0 <= id < s.size() && (#[trigger] s.workers[id]).is_live() ==> s.enabled(
                Event::Claim(id),
            ) || s.enabled(Event::Finish(id)),
        s.work_left() == 0 ==> s.stopped(),
        s.stopped() ==> total_weight(s.workers) == 0,
{
    lemma_weight_zero(s.workers);
}

} // verus!
