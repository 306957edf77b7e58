use std::sync::atomic::AtomicUsize;
use std::sync::atomic::Ordering;
use std::sync::Arc;

use worker_pool::Claim;
use worker_pool::PoolError;
use worker_pool::ThreadPool;
use worker_pool::Worker;
use worker_pool::WorkerState;

/// Plays the workers' part until every one of them has left its loop: each
/// idle worker claims, each job handed out is executed and reported done.
fn drain<F: FnOnce()>(pool: &mut ThreadPool<F>) {
    let size: usize = pool.size();
    while !pool.is_stopped() {
        let mut progressed: bool = false;
        for id in 0..size {
            if pool.worker_state(id) == Some(WorkerState::Idle) {
                match pool.claim(id) {
                    Claim::Run(job) => {
                        job();
                        pool.finish(id);
                        progressed = true;
                    }
                    Claim::Wait => {}
                    Claim::Exit => {
                        progressed = true;
                    }
                }
            }
        }
        assert!(progressed, "an open pool with an empty channel never stops");
    }
}

/// What letting a pool go does: the sending end is closed, then every worker
/// is waited for.
fn let_go<F: FnOnce()>(mut pool: ThreadPool<F>) {
    pool.close();
    drain(&mut pool);
    assert!(pool.is_stopped());
    assert_eq!(pool.pending(), 0);
}

fn reason_of(e: &PoolError) -> String {
    match e {
        PoolError::CreationError(msg) => msg.clone(),
        PoolError::SendError(msg) => msg.clone(),
    }
}

#[test]
fn test_pool_creation() {
    let pool = ThreadPool::<fn()>::build(4);
    assert!(pool.is_ok());
}

#[test]
fn test_zero_size_pool_fails() {
    let pool = ThreadPool::<fn()>::build(0);
    assert!(pool.is_err());
}

#[test]
fn test_execution() {
    let mut pool = ThreadPool::build(2).unwrap();
    let counter = Arc::new(AtomicUsize::new(0));

    for _ in 0..10 {
        let c = Arc::clone(&counter);
        pool.execute(move || {
            c.fetch_add(1, Ordering::SeqCst);
        })
        .unwrap();
    }

    let_go(pool);
    assert_eq!(counter.load(Ordering::SeqCst), 10);
}

#[test]
fn build_yields_that_many_idle_workers() {
    for size in 1..=6usize {
        let pool = ThreadPool::<u32>::build(size).unwrap();
        assert_eq!(pool.size(), size);
        assert!(pool.is_open());
        assert!(pool.has_live_worker());
        assert!(!pool.is_stopped());
        assert_eq!(pool.pending(), 0);
        for id in 0..size {
            assert_eq!(pool.worker_state(id), Some(WorkerState::Idle));
        }
        assert_eq!(pool.worker_state(size), None);
    }
}

#[test]
fn zero_size_gives_a_creation_error() {
    match ThreadPool::<u32>::build(0) {
        Err(PoolError::CreationError(msg)) => {
            assert_eq!(msg, "Pool size must be greater than zero");
        }
        _ => panic!("a pool of no workers was not refused"),
    }
}

#[test]
fn errors_render_with_their_prefix() {
    let created = PoolError::zero_size();
    assert_eq!(
        created.message(),
        "Pool Creation Error: Pool size must be greater than zero"
    );
    let missing = PoolError::sender_missing();
    assert_eq!(missing.message(), "Job Dispatch Error: ThreadPool sender is missing");
    let closed = PoolError::channel_closed();
    assert_eq!(closed.message(), "Job Dispatch Error: sending on a closed channel");
    let custom = PoolError::SendError(String::from("x"));
    assert_eq!(custom.message(), "Job Dispatch Error: x");
    let empty = PoolError::CreationError(String::new());
    assert_eq!(empty.message(), "Pool Creation Error: ");
}

#[test]
fn a_new_worker_is_idle() {
    let w = Worker::new(5);
    assert_eq!(w.id, 5);
    assert_eq!(w.state, WorkerState::Idle);
}

#[test]
fn live_states_are_idle_and_running() {
    assert!(WorkerState::Idle.live());
    assert!(WorkerState::Running.live());
    assert!(!WorkerState::Terminated.live());
    assert!(!WorkerState::Faulted.live());
}

#[test]
fn jobs_are_claimed_in_the_order_submitted() {
    let mut pool = ThreadPool::<u32>::build(1).unwrap();
    for job in [10u32, 20, 30] {
        pool.execute(job).unwrap();
    }
    assert_eq!(pool.pending(), 3);
    let mut seen: Vec<u32> = Vec::new();
    for _ in 0..3 {
        match pool.claim(0) {
            Claim::Run(job) => seen.push(job),
            _ => panic!("a queued job was not handed out"),
        }
        assert_eq!(pool.worker_state(0), Some(WorkerState::Running));
        pool.finish(0);
        assert_eq!(pool.worker_state(0), Some(WorkerState::Idle));
    }
    assert_eq!(seen, vec![10, 20, 30]);
    assert_eq!(pool.pending(), 0);
}

#[test]
fn an_open_empty_channel_makes_the_worker_wait() {
    let mut pool = ThreadPool::<u32>::build(2).unwrap();
    assert!(matches!(pool.claim(1), Claim::Wait));
    assert_eq!(pool.worker_state(1), Some(WorkerState::Idle));
    assert!(pool.is_open());
}

#[test]
fn a_closed_empty_channel_makes_the_worker_leave() {
    let mut pool = ThreadPool::<u32>::build(2).unwrap();
    pool.close();
    assert!(!pool.is_open());
    assert!(matches!(pool.claim(0), Claim::Exit));
    assert_eq!(pool.worker_state(0), Some(WorkerState::Terminated));
    assert_eq!(pool.worker_state(1), Some(WorkerState::Idle));
    assert!(pool.has_live_worker());
    assert!(matches!(pool.claim(1), Claim::Exit));
    assert!(pool.is_stopped());
}

#[test]
fn queued_jobs_survive_the_close() {
    let mut pool = ThreadPool::<u32>::build(1).unwrap();
    pool.execute(1).unwrap();
    pool.execute(2).unwrap();
    pool.close();
    assert_eq!(pool.pending(), 2);
    assert!(matches!(pool.claim(0), Claim::Run(1)));
    pool.finish(0);
    assert!(matches!(pool.claim(0), Claim::Run(2)));
    pool.finish(0);
    assert!(matches!(pool.claim(0), Claim::Exit));
    assert!(pool.is_stopped());
    assert_eq!(pool.pending(), 0);
}

#[test]
fn a_running_worker_finishes_before_it_sees_the_close() {
    let mut pool = ThreadPool::<u32>::build(1).unwrap();
    pool.execute(7).unwrap();
    assert!(matches!(pool.claim(0), Claim::Run(7)));
    pool.close();
    assert_eq!(pool.worker_state(0), Some(WorkerState::Running));
    assert!(!pool.is_stopped());
    pool.finish(0);
    assert!(matches!(pool.claim(0), Claim::Exit));
    assert!(pool.is_stopped());
}

#[test]
fn submitting_after_the_close_fails_and_runs_nothing() {
    let mut pool = ThreadPool::build(2).unwrap();
    let counter = Arc::new(AtomicUsize::new(0));
    let make = |by: usize| {
        let c = Arc::clone(&counter);
        move || {
            c.fetch_add(by, Ordering::SeqCst);
        }
    };
    pool.execute(make(1)).unwrap();
    pool.close();
    match pool.execute(make(100)) {
        Err(PoolError::SendError(msg)) => assert_eq!(msg, "ThreadPool sender is missing"),
        _ => panic!("a closed pool accepted a job"),
    }
    assert_eq!(pool.pending(), 1);
    let_go(pool);
    assert_eq!(counter.load(Ordering::SeqCst), 1);
}

#[test]
fn submitting_with_no_worker_left_fails() {
    let mut pool = ThreadPool::<u32>::build(2).unwrap();
    pool.execute(1).unwrap();
    pool.execute(2).unwrap();
    assert!(matches!(pool.claim(0), Claim::Run(1)));
    assert!(matches!(pool.claim(1), Claim::Run(2)));
    pool.fault(0);
    assert!(pool.has_live_worker());
    pool.execute(3).unwrap();
    pool.fault(1);
    assert!(pool.is_stopped());
    assert!(pool.is_open());
    let refused = pool.execute(4);
    match &refused {
        Err(e) => {
            assert!(matches!(e, PoolError::SendError(_)));
            assert_eq!(reason_of(e), "sending on a closed channel");
        }
        Ok(()) => panic!("a pool without workers accepted a job"),
    }
    assert_eq!(pool.pending(), 1);
}

#[test]
fn a_lost_worker_leaves_the_rest_at_work() {
    let mut pool = ThreadPool::<u32>::build(2).unwrap();
    for job in 1..=4u32 {
        pool.execute(job).unwrap();
    }
    assert!(matches!(pool.claim(0), Claim::Run(1)));
    pool.fault(0);
    assert_eq!(pool.worker_state(0), Some(WorkerState::Faulted));
    assert_eq!(pool.size(), 2);
    let mut seen: Vec<u32> = Vec::new();
    pool.close();
    loop {
        match pool.claim(1) {
            Claim::Run(job) => {
                seen.push(job);
                pool.finish(1);
            }
            Claim::Wait => panic!("a closed pool told a worker to wait"),
            Claim::Exit => break,
        }
    }
    assert_eq!(seen, vec![2, 3, 4]);
    assert!(pool.is_stopped());
}

#[test]
fn two_workers_never_get_the_same_job() {
    let mut pool = ThreadPool::<u32>::build(3).unwrap();
    for job in 0..3u32 {
        pool.execute(job).unwrap();
    }
    let mut handed: Vec<u32> = Vec::new();
    for id in 0..3usize {
        match pool.claim(id) {
            Claim::Run(job) => handed.push(job),
            _ => panic!("a queued job was not handed out"),
        }
    }
    assert_eq!(handed, vec![0, 1, 2]);
    assert_eq!(pool.pending(), 0);
    for id in 0..3usize {
        assert_eq!(pool.worker_state(id), Some(WorkerState::Running));
    }
}

#[test]
fn every_job_of_a_batch_runs_once() {
    for size in 1..=4usize {
        for n in [0usize, 1, 5, 33] {
            let mut pool = ThreadPool::build(size).unwrap();
            let runs: Vec<Arc<AtomicUsize>> =
                (0..n).map(|_| Arc::new(AtomicUsize::new(0))).collect();
            for slot in runs.iter() {
                let c = Arc::clone(slot);
                pool.execute(move || {
                    c.fetch_add(1, Ordering::SeqCst);
                })
                .unwrap();
            }
            assert_eq!(pool.pending(), n);
            let_go(pool);
            for slot in runs.iter() {
                assert_eq!(slot.load(Ordering::SeqCst), 1);
            }
        }
    }
}

#[test]
fn closing_twice_is_closing_once() {
    let mut pool = ThreadPool::<u32>::build(1).unwrap();
    pool.execute(9).unwrap();
    pool.close();
    pool.close();
    assert!(!pool.is_open());
    assert_eq!(pool.pending(), 1);
    assert_eq!(pool.worker_state(0), Some(WorkerState::Idle));
}
