use wwwdaanlubbersnl::concurrency::PoolError;
use wwwdaanlubbersnl::concurrency::ThreadPool;

#[test]
fn threadpool_new() {
    let pool = ThreadPool::new(1).unwrap();
    assert_eq!(pool.worker_count(), 1);
    let pool = ThreadPool::new(4).unwrap();
    assert_eq!(pool.worker_count(), 4);
    let pool = ThreadPool::new(32).unwrap();
    assert_eq!(pool.worker_count(), 32);
}

#[test]
fn threadpool_zero_size_is_refused() {
    match ThreadPool::new(0) {
        Err(e) => assert_eq!(e, PoolError::ZeroSize),
        Ok(_) => panic!("a zero-size pool must be refused"),
    }
}

#[test]
fn new_pool_is_open_and_idle() {
    let pool = ThreadPool::new(2).unwrap();
    assert!(pool.is_accepting());
    assert_eq!(pool.submitted_count(), 0);
    assert!(pool.is_drained());
}

#[test]
fn submit_returns_consecutive_ids() {
    let mut pool = ThreadPool::new(2).unwrap();
    assert_eq!(pool.submit(), 0);
    assert_eq!(pool.submit(), 1);
    assert_eq!(pool.submit(), 2);
    assert_eq!(pool.submitted_count(), 3);
    assert_eq!(pool.queued_count(), 3);
}

#[test]
fn take_job_is_oldest_first() {
    let mut pool = ThreadPool::new(2).unwrap();
    pool.submit();
    pool.submit();
    pool.submit();
    assert_eq!(pool.take_job(), Some(0));
    assert_eq!(pool.take_job(), Some(1));
    pool.finish_job(0);
    assert_eq!(pool.take_job(), Some(2));
    pool.finish_job(1);
    pool.finish_job(2);
    assert_eq!(pool.take_job(), None);
}

#[test]
fn shutdown_closes_the_queue() {
    let mut pool = ThreadPool::new(1).unwrap();
    pool.submit();
    pool.shutdown();
    assert!(!pool.is_accepting());
    // The queued job is still handed out and finished after shutdown.
    assert_eq!(pool.take_job(), Some(0));
    pool.finish_job(0);
    assert!(pool.is_drained());
}

#[test]
fn every_submitted_job_runs_exactly_once() {
    let size: usize = 3;
    let jobs: usize = 10;
    let mut pool = ThreadPool::new(size).unwrap();
    for _ in 0..jobs {
        pool.submit();
    }
    pool.shutdown();

    // Drain as `size` workers would: pull while a worker is free, then
    // finish what was pulled, until nothing waits and nothing runs.
    let mut runs_per_job = vec![0usize; jobs];
    while !pool.is_drained() {
        let mut pulled: Vec<usize> = Vec::new();
        while pool.running_count() < pool.worker_count() {
            match pool.take_job() {
                Some(id) => pulled.push(id),
                None => break,
            }
        }
        assert!(pulled.len() <= size);
        for id in pulled {
            runs_per_job[id] += 1;
            pool.finish_job(id);
        }
    }
    assert_eq!(pool.completed_count(), jobs);
    assert_eq!(pool.submitted_count(), jobs);
    for runs in runs_per_job {
        assert_eq!(runs, 1);
    }
}
