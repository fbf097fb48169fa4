//! The worker pool's bookkeeping, as a verified state machine.
//!
//! Operating-system threads cannot be verified here; what can is every
//! decision the pool makes: which submissions are accepted, which job a
//! worker pulls next, and when the pool counts as drained. The serving
//! process owns the threads and drives this state machine — `submit`
//! when work arrives, `take_job` when a worker asks for work,
//! `finish_job` when the worker is done, `shutdown` to close the queue —
//! and keeps the job payloads keyed by the returned job ids.
//!
//! The queue is unbounded: while it is open, every submission is
//! accepted at once and submitters never block. Workers pull jobs
//! oldest-first, but nothing is promised about the order in which
//! racing workers finish them.

use vstd::prelude::*;

verus! {

/// Why a pool could not be built.
#[derive(Clone, Copy, PartialEq, Eq, Structural, Debug)]
pub enum PoolError {
    /// A pool with no workers could never run a job.
    ZeroSize,
}

/// The lifecycle of one submitted job. Each job owns exactly one state
/// cell, so it can be pulled once and finished once, never twice: a
/// worker pulls only `Queued` jobs and finishes only `Running` ones.
#[derive(Clone, Copy, PartialEq, Eq, Structural, Debug)]
pub enum JobState {
    /// Submitted and waiting in the queue.
    Queued,
    /// Pulled by a worker that has not finished it.
    Running,
    /// Finished by the worker that pulled it.
    Completed,
}

/// The number of jobs of `jobs` in state `st`.
pub open spec fn count_in_state(jobs: Seq<JobState>, st: JobState) -> nat
    decreases jobs.len(),
{
    if jobs.len() == 0 {
        0
    } else {
        count_in_state(jobs.drop_last(), st) + if jobs.last() == st {
            1nat
        } else {
            0nat
        }
    }
}

proof fn lemma_count_le_len(jobs: Seq<JobState>, st: JobState)
    ensures
        count_in_state(jobs, st) <= jobs.len(),
    decreases jobs.len(),
{
    if jobs.len() > 0 {
        lemma_count_le_len(jobs.drop_last(), st);
    }
}

proof fn lemma_count_push(jobs: Seq<JobState>, v: JobState, st: JobState)
    ensures
        count_in_state(jobs.push(v), st) == count_in_state(jobs, st) + if v == st {
            1nat
        } else {
            0nat
        },
{
    assert(jobs.push(v).drop_last() =~= jobs);
    assert(jobs.push(v).last() == v);
}

proof fn lemma_count_update(jobs: Seq<JobState>, i: int, v: JobState, st: JobState)
    requires
        0 <= i < jobs.len(),
    ensures
        count_in_state(jobs.update(i, v), st) == count_in_state(jobs, st) + (if v == st {
            1int
        } else {
            0int
        }) - (if jobs[i] == st {
            1int
        } else {
            0int
        }),
    decreases jobs.len(),
{
    if i == jobs.len() - 1 {
        assert(jobs.update(i, v).drop_last() =~= jobs.drop_last());
        assert(jobs.update(i, v).last() == v);
    } else {
        assert(jobs.update(i, v).drop_last() =~= jobs.drop_last().update(i, v));
        assert(jobs.update(i, v).last() == jobs.last());
        lemma_count_update(jobs.drop_last(), i, v, st);
    }
}

proof fn lemma_count_zero_when_absent(jobs: Seq<JobState>, st: JobState)
    requires
        forall|i: int| 0 <= i < jobs.len() ==> jobs[i] != st,
    ensures
        count_in_state(jobs, st) == 0,
    decreases jobs.len(),
{
    if jobs.len() > 0 {
        lemma_count_zero_when_absent(jobs.drop_last(), st);
    }
}

proof fn lemma_counts_partition(jobs: Seq<JobState>)
    ensures
        count_in_state(jobs, JobState::Queued) + count_in_state(jobs, JobState::Running)
            + count_in_state(jobs, JobState::Completed) == jobs.len(),
    decreases jobs.len(),
{
    if jobs.len() > 0 {
        lemma_counts_partition(jobs.drop_last());
    }
}

proof fn lemma_full_count_means_all(jobs: Seq<JobState>, st: JobState)
    requires
        count_in_state(jobs, st) == jobs.len(),
    ensures
        forall|i: int| 0 <= i < jobs.len() ==> jobs[i] == st,
    decreases jobs.len(),
{
    if jobs.len() > 0 {
        lemma_count_le_len(jobs.drop_last(), st);
        lemma_full_count_means_all(jobs.drop_last(), st);
        assert forall|i: int| 0 <= i < jobs.len() implies jobs[i] == st by {
            if i < jobs.len() - 1 {
                assert(jobs[i] == jobs.drop_last()[i]);
            } else {
                assert(jobs[i] == jobs.last());
            }
        }
    }
}

/// The pool: the worker count fixed at construction, whether the queue
/// still accepts submissions, and one state cell per submitted job, the
/// job's id being its index.
pub struct ThreadPool {
    pub size: usize,
    pub accepting: bool,
    pub jobs: Vec<JobState>,
}

impl ThreadPool {
    /// The pool invariant: at least one worker, and never more running
    /// jobs than workers.
    pub open spec fn wf(self) -> bool {
        &&& self.size >= 1
        &&& count_in_state(self.jobs@, JobState::Running) <= self.size
    }

    /// Creates a pool of `size` workers; a zero size is refused at
    /// once, before any job can be submitted.
    pub fn new(size: usize) -> (r: Result<ThreadPool, PoolError>)
        ensures
            (match r {
                Ok(pool) => size >= 1 && pool.size == size && pool.accepting && pool.jobs@.len()
                    == 0 && pool.wf(),
                Err(e) => size == 0 && e == PoolError::ZeroSize,
            }),
    {
        if size == 0 {
            Err(PoolError::ZeroSize)
        } else {
            Ok(ThreadPool { size, accepting: true, jobs: Vec::new() })
        }
    }

    /// How many workers the pool was built with.
    pub fn worker_count(&self) -> (r: usize)
        ensures
            r == self.size,
    {
        self.size
    }

    /// Whether the queue still accepts submissions.
    pub fn is_accepting(&self) -> (r: bool)
        ensures
            r == self.accepting,
    {
        self.accepting
    }

    /// Accepts a job while the queue is open; the returned id names the
    /// job to the pool from then on. Submission after shutdown is
    /// refused by contract, never silently dropped.
    pub fn submit(&mut self) -> (id: usize)
        requires
            old(self).wf(),
            old(self).accepting,
        ensures
            final(self).jobs@ == old(self).jobs@.push(JobState::Queued),
            id == old(self).jobs@.len(),
            final(self).size == old(self).size,
            final(self).accepting,
            final(self).wf(),
    {
        let id = self.jobs.len();
        self.jobs.push(JobState::Queued);
        proof {
            lemma_count_push(old(self).jobs@, JobState::Queued, JobState::Running);
        }
        id
    }

    /// Hands the oldest queued job to a worker, if any job waits. The
    /// caller vouches for a free worker, so never more than `size` jobs
    /// run at once.
    pub fn take_job(&mut self) -> (r: Option<usize>)
        requires
            old(self).wf(),
            count_in_state(old(self).jobs@, JobState::Running) < old(self).size,
        ensures
            final(self).size == old(self).size,
            final(self).accepting == old(self).accepting,
            final(self).wf(),
            (match r {
                Some(id) => id < old(self).jobs@.len() && old(self).jobs@[id as int]
                    == JobState::Queued && (forall|j: int|
                    0 <= j < id ==> old(self).jobs@[j] != JobState::Queued) && final(self).jobs@
                    == old(self).jobs@.update(id as int, JobState::Running),
                None => count_in_state(old(self).jobs@, JobState::Queued) == 0
                    && final(self).jobs@ == old(self).jobs@,
            }),
    {
        let mut i: usize = 0;
        while i < self.jobs.len()
            invariant
                i <= self.jobs@.len(),
                self == old(self),
                count_in_state(self.jobs@, JobState::Running) < self.size,
                forall|j: int| 0 <= j < i ==> self.jobs@[j] != JobState::Queued,
            decreases self.jobs@.len() - i,
        {
            if self.jobs[i] == JobState::Queued {
                self.jobs[i] = JobState::Running;
                proof {
                    lemma_count_update(
                        old(self).jobs@,
                        i as int,
                        JobState::Running,
                        JobState::Running,
                    );
                    assert(count_in_state(self.jobs@, JobState::Running) <= self.size);
                }
                return Some(i);
            }
            i = i + 1;
        }
        proof {
            lemma_count_zero_when_absent(self.jobs@, JobState::Queued);
        }
        None
    }

    /// Marks a running job finished; the worker that pulled it is free
    /// again.
    pub fn finish_job(&mut self, id: usize)
        requires
            old(self).wf(),
            id < old(self).jobs@.len(),
            old(self).jobs@[id as int] == JobState::Running,
        ensures
            final(self).jobs@ == old(self).jobs@.update(id as int, JobState::Completed),
            final(self).size == old(self).size,
            final(self).accepting == old(self).accepting,
            final(self).wf(),
    {
        self.jobs[id] = JobState::Completed;
        proof {
            lemma_count_update(old(self).jobs@, id as int, JobState::Completed, JobState::Running);
        }
    }

    /// Closes the queue: no further submission is accepted. Jobs already
    /// queued are still handed out and finished; closing the queue is
    /// the sole termination signal the workers observe.
    pub fn shutdown(&mut self)
        requires
            old(self).accepting,
        ensures
            !final(self).accepting,
            final(self).size == old(self).size,
            final(self).jobs@ == old(self).jobs@,
    {
        self.accepting = false;
    }

    /// The state of job `id`, or nothing for an id never returned by
    /// `submit`.
    pub fn job_state(&self, id: usize) -> (r: Option<JobState>)
        ensures
            r == if id < self.jobs@.len() {
                Some(self.jobs@[id as int])
            } else {
                None::<JobState>
            },
    {
        if id < self.jobs.len() {
            Some(self.jobs[id])
        } else {
            None
        }
    }

    /// The number of jobs waiting in the queue.
    pub fn queued_count(&self) -> (r: usize)
        ensures
            r == count_in_state(self.jobs@, JobState::Queued),
    {
        count_jobs(&self.jobs, JobState::Queued)
    }

    /// The number of jobs workers are running right now.
    pub fn running_count(&self) -> (r: usize)
        ensures
            r == count_in_state(self.jobs@, JobState::Running),
    {
        count_jobs(&self.jobs, JobState::Running)
    }

    /// The number of jobs finished so far.
    pub fn completed_count(&self) -> (r: usize)
        ensures
            r == count_in_state(self.jobs@, JobState::Completed),
    {
        count_jobs(&self.jobs, JobState::Completed)
    }

    /// The number of jobs ever submitted.
    pub fn submitted_count(&self) -> (r: usize)
        ensures
            r == self.jobs@.len(),
    {
        self.jobs.len()
    }

    /// Whether nothing waits and nothing runs: the join in `shutdown`
    /// may return only once this holds.
    pub fn is_drained(&self) -> (r: bool)
        ensures
            r == (count_in_state(self.jobs@, JobState::Queued) == 0 && count_in_state(
                self.jobs@,
                JobState::Running,
            ) == 0),
    {
        let queued = self.queued_count();
        let running = self.running_count();
        queued == 0 && running == 0
    }
}

fn count_jobs(jobs: &Vec<JobState>, st: JobState) -> (r: usize)
    ensures
        r == count_in_state(jobs@, st),
{
    let mut c: usize = 0;
    let mut i: usize = 0;
    while i < jobs.len()
        invariant
            i <= jobs@.len(),
            c <= i,
            c == count_in_state(jobs@.take(i as int), st),
        decreases jobs@.len() - i,
    {
        proof {
            assert(jobs@.take(i as int + 1).drop_last() =~= jobs@.take(i as int));
            assert(jobs@.take(i as int + 1).last() == jobs@[i as int]);
        }
        if jobs[i] == st {
            c = c + 1;
        }
        i = i + 1;
    }
    proof {
        assert(jobs@.take(jobs@.len() as int) =~= jobs@);
    }
    c
}

/// A drained pool has completed every job ever submitted — each exactly
/// once, since each job holds a single state cell, reached `Completed`
/// only from `Running`, and `Running` only from `Queued`.
pub proof fn lemma_drained_pool_completed_every_job(pool: ThreadPool)
    requires
        count_in_state(pool.jobs@, JobState::Queued) == 0,
        count_in_state(pool.jobs@, JobState::Running) == 0,
    ensures
        count_in_state(pool.jobs@, JobState::Completed) == pool.jobs@.len(),
        forall|i: int| 0 <= i < pool.jobs@.len() ==> pool.jobs@[i] == JobState::Completed,
{
    lemma_counts_partition(pool.jobs@);
    lemma_full_count_means_all(pool.jobs@, JobState::Completed);
}

} // verus!
