//! The worker-pool state model: the bookkeeping that decides pool
//! construction, worker-loop statistics windows, and
//! statistics-driven resizing. The caller owns the actual threads
//! and the intake queue; it mirrors every decision this model makes
//! (spawn a worker for each appended entry, stop the thread of each
//! entry whose stop flag was set).

use vstd::prelude::*;
use crate::threadpoolerror::{ThreadPoolError, ThreadPoolErrorReason};

verus! {

/// The largest pool size the host supports.
pub const MAX_POOL_SIZE: usize = 20480;

/// The length of a worker's statistics window, in seconds.
pub const COUNT_RESET_TIME_SECS: u64 = 60;

/// A unit of work: one operation, no inputs, no result.
pub trait ThreadPoolJob {
    fn run_job(&self);
}

/// Per-worker throughput over the most recently closed window;
/// absent until a first window has closed.
#[derive(Debug)]
pub struct Statistics {
    pub number_of_jobs_serviced: Option<usize>,
}

/// One worker: its stable id and its stop flag.
#[derive(Debug)]
pub struct WorkerState {
    pub id: usize,
    pub stop_execution: bool,
}

/// The pool state: workers in spawn order (ids equal positions, and
/// are never reused), their statistics under the same indexing, the
/// configured bounds, and the monotone id counter.
#[derive(Debug)]
pub struct ThreadPool {
    worker_statistics: Vec<Statistics>,
    workers: Vec<WorkerState>,
    min_pool_size: usize,
    max_pool_size: usize,
    max_exec_time: u64,
    next_id: usize,
}

/// How many published statistics fall below `lower`, each an intent
/// to shed one worker.
pub open spec fn spec_shed_intents(s: Seq<Statistics>, lower: int) -> int
    decreases s.len(),
{
    if s.len() == 0 {
        0
    } else {
        spec_shed_intents(s.drop_last(), lower) + match s.last().number_of_jobs_serviced {
            Some(c) => if c < lower { 1int } else { 0int },
            None => 0int,
        }
    }
}

/// How many published statistics lie above `upper` without lying
/// below `lower` (the shed test is made first), each an intent to
/// add one worker.
pub open spec fn spec_grow_intents(s: Seq<Statistics>, lower: int, upper: int) -> int
    decreases s.len(),
{
    if s.len() == 0 {
        0
    } else {
        spec_grow_intents(s.drop_last(), lower, upper) + match s.last().number_of_jobs_serviced {
            Some(c) => if !(c < lower) && c > upper { 1int } else { 0int },
            None => 0int,
        }
    }
}

/// The applied resize delta: the raw intent `inc - dec`, clamped so
/// that the resulting size `len + delta` lies within `[min, max]`
/// (the lower clamp is considered first, as a shed below the
/// minimum is raised back to it).
pub open spec fn spec_resize_delta(len: int, inc: int, dec: int, min: int, max: int) -> int {
    let desired = len + inc - dec;
    if desired < min {
        min - len
    } else if desired > max {
        max - len
    } else {
        inc - dec
    }
}

/// Pool bounds: when the worker count lies within `[min, max]`
/// before a resize, it still does afterwards, whatever the
/// published statistics were. Growth is clamped to `max`; shedding
/// marks workers to stop without removing them from the pool.
pub proof fn lemma_pool_bounds(len: int, inc: int, dec: int, min: int, max: int)
    requires
        min <= len <= max,
        inc >= 0,
        dec >= 0,
    ensures
        ({
            let d = spec_resize_delta(len, inc, dec, min, max);
            let post = if d > 0 {
                len + d
            } else {
                len
            };
            min <= post <= max
        }),
{
}

impl ThreadPool {
    /// The statistics table, indexed by worker id.
    pub closed spec fn spec_stats(&self) -> Seq<Statistics> {
        self.worker_statistics@
    }

    /// The workers in spawn order.
    pub closed spec fn spec_workers(&self) -> Seq<WorkerState> {
        self.workers@
    }

    /// The configured lower pool bound.
    pub closed spec fn spec_min(&self) -> int {
        self.min_pool_size as int
    }

    /// The configured upper pool bound.
    pub closed spec fn spec_max(&self) -> int {
        self.max_pool_size as int
    }

    /// The next id the pool will assign.
    pub closed spec fn spec_next_id(&self) -> int {
        self.next_id as int
    }

    /// Well-formedness: ids equal positions, every worker has a
    /// statistics entry under its id, and the id counter sits just
    /// past the workers spawned so far.
    pub open spec fn wf(&self) -> bool {
        &&& forall|i: int|
            0 <= i < self.spec_workers().len() ==> (#[trigger] self.spec_workers()[i]).id == i
        &&& self.spec_stats().len() == self.spec_workers().len()
        &&& self.spec_next_id() == self.spec_workers().len()
    }

    /// A pool of `pool_size` fresh workers with bounds
    /// `[min_pool_size, max_pool_size]`: refused with
    /// `InvalidPoolSize` when the initial size exceeds the host
    /// maximum, and with `InvalidDynamicPoolBounds` when the upper
    /// bound does.
    pub fn new(
        pool_size: usize,
        min_pool_size: usize,
        max_pool_size: usize,
        max_exec_time: u64,
    ) -> (r: Result<ThreadPool, ThreadPoolError>)
        ensures
            pool_size > MAX_POOL_SIZE ==> match r {
                Ok(_) => false,
                Err(e) => e.reason is InvalidPoolSize,
            },
            (pool_size <= MAX_POOL_SIZE && max_pool_size > MAX_POOL_SIZE) ==> match r {
                Ok(_) => false,
                Err(e) => e.reason is InvalidDynamicPoolBounds,
            },
            (pool_size <= MAX_POOL_SIZE && max_pool_size <= MAX_POOL_SIZE) ==> match r {
                Ok(p) => {
                    &&& p.wf()
                    &&& p.spec_workers().len() == pool_size
                    &&& forall|i: int|
                        0 <= i < pool_size ==> !(#[trigger] p.spec_workers()[i]).stop_execution
                    &&& forall|i: int|
                        0 <= i < pool_size ==> (#[trigger] p.spec_stats()[i]).number_of_jobs_serviced
                            is None
                    &&& p.spec_min() == min_pool_size
                    &&& p.spec_max() == max_pool_size
                    &&& p.spec_next_id() == pool_size
                },
                Err(_) => false,
            },
    {
        if pool_size > MAX_POOL_SIZE {
            return Err(ThreadPoolError::new(ThreadPoolErrorReason::InvalidPoolSize));
        }
        if max_pool_size > MAX_POOL_SIZE {
            return Err(ThreadPoolError::new(ThreadPoolErrorReason::InvalidDynamicPoolBounds));
        }
        let mut workers: Vec<WorkerState> = Vec::new();
        let mut worker_statistics: Vec<Statistics> = Vec::new();
        let mut id: usize = 0;
        while id < pool_size
            invariant
                0 <= id <= pool_size,
                workers@.len() == id,
                worker_statistics@.len() == id,
                forall|i: int| 0 <= i < id as int ==> (#[trigger] workers@[i]).id == i,
                forall|i: int| 0 <= i < id as int ==> !(#[trigger] workers@[i]).stop_execution,
                forall|i: int|
                    0 <= i < id as int ==> (#[trigger] worker_statistics@[i]).number_of_jobs_serviced
                        is None,
            decreases pool_size - id,
        {
            worker_statistics.push(Statistics { number_of_jobs_serviced: None });
            workers.push(WorkerState { id, stop_execution: false });
            id = id + 1;
        }
        Ok(ThreadPool {
            worker_statistics,
            workers,
            min_pool_size,
            max_pool_size,
            max_exec_time,
            next_id: pool_size,
        })
    }

    /// The number of workers, stopped ones included.
    pub fn worker_count(&self) -> (r: usize)
        ensures
            r == self.spec_workers().len(),
    {
        self.workers.len()
    }

    /// The id of the worker at a position of the spawn order.
    pub fn worker_id_at(&self, i: usize) -> (r: usize)
        requires
            i < self.spec_workers().len(),
        ensures
            r == self.spec_workers()[i as int].id,
    {
        self.workers[i].id
    }

    /// Whether the worker at a position has been told to stop.
    pub fn worker_stopped(&self, i: usize) -> (r: bool)
        requires
            i < self.spec_workers().len(),
        ensures
            r == self.spec_workers()[i as int].stop_execution,
    {
        self.workers[i].stop_execution
    }

    /// The published statistic of the worker with id `i`.
    pub fn statistic_at(&self, i: usize) -> (r: Option<usize>)
        requires
            i < self.spec_stats().len(),
        ensures
            r == self.spec_stats()[i as int].number_of_jobs_serviced,
    {
        self.worker_statistics[i].number_of_jobs_serviced
    }

    /// Publishes a worker's window count into the statistics table.
    /// Returns false, changing nothing, for an unknown id.
    pub fn set_statistic(&mut self, id: usize, count: usize) -> (r: bool)
        ensures
            final(self).spec_workers() == old(self).spec_workers(),
            final(self).spec_min() == old(self).spec_min(),
            final(self).spec_max() == old(self).spec_max(),
            final(self).spec_next_id() == old(self).spec_next_id(),
            r == (id < old(self).spec_stats().len()),
            r ==> final(self).spec_stats() == old(self).spec_stats().update(
                id as int,
                Statistics { number_of_jobs_serviced: Some(count) },
            ),
            !r ==> final(self).spec_stats() == old(self).spec_stats(),
            old(self).wf() ==> final(self).wf(),
    {
        if id < self.worker_statistics.len() {
            self.worker_statistics.set(id, Statistics { number_of_jobs_serviced: Some(count) });
            true
        } else {
            false
        }
    }

    /// The id the next spawned worker will take; ids are never
    /// reused.
    fn get_next_id(&mut self) -> (r: usize)
        requires
            old(self).next_id < usize::MAX,
        ensures
            r == old(self).spec_next_id(),
            final(self).next_id == old(self).next_id + 1,
            final(self).worker_statistics == old(self).worker_statistics,
            final(self).workers == old(self).workers,
            final(self).min_pool_size == old(self).min_pool_size,
            final(self).max_pool_size == old(self).max_pool_size,
    {
        let next_id = self.next_id;
        self.next_id = self.next_id + 1;
        next_id
    }

    /// One statistics-driven resize. Every published count below
    /// `jobs_per_duration_lower_bound` is an intent to shed a
    /// worker, every count above `jobs_per_duration_upper_bound` an
    /// intent to add one; the net intent is clamped so the
    /// resulting size stays within the configured bounds, and then
    /// applied: shedding sets the stop flag on the leading workers
    /// of the spawn order, adding appends fresh workers with fresh
    /// ids. Returns the applied delta; a delta too large for the
    /// return type is refused as a `DynamicResizingError`, with
    /// nothing changed.
    pub fn dynamic_resizing(
        &mut self,
        jobs_per_duration_lower_bound: usize,
        jobs_per_duration_upper_bound: usize,
    ) -> (r: Result<i32, ThreadPoolError>)
        requires
            old(self).wf(),
        ensures
            final(self).wf(),
            final(self).spec_min() == old(self).spec_min(),
            final(self).spec_max() == old(self).spec_max(),
            ({
                let pre = *old(self);
                let post = *final(self);
                let dec = spec_shed_intents(pre.spec_stats(), jobs_per_duration_lower_bound as int);
                let inc = spec_grow_intents(
                    pre.spec_stats(),
                    jobs_per_duration_lower_bound as int,
                    jobs_per_duration_upper_bound as int,
                );
                let d = spec_resize_delta(
                    pre.spec_workers().len() as int,
                    inc,
                    dec,
                    pre.spec_min(),
                    pre.spec_max(),
                );
                if -(i32::MAX as int) <= d <= i32::MAX as int {
                    match r {
                        Ok(v) => {
                            &&& v as int == d
                            &&& (d >= 0 ==> {
                                &&& post.spec_workers().len() == pre.spec_workers().len() + d
                                &&& (forall|i: int|
                                    0 <= i < pre.spec_workers().len()
                                        ==> post.spec_workers()[i] == pre.spec_workers()[i])
                                &&& (forall|i: int|
                                    pre.spec_workers().len() <= i < post.spec_workers().len()
                                        ==> !(#[trigger] post.spec_workers()[i]).stop_execution)
                                &&& post.spec_stats().len() == pre.spec_stats().len() + d
                                &&& (forall|i: int|
                                    0 <= i < pre.spec_stats().len()
                                        ==> post.spec_stats()[i] == pre.spec_stats()[i])
                                &&& (forall|i: int|
                                    pre.spec_stats().len() <= i < post.spec_stats().len()
                                        ==> (#[trigger] post.spec_stats()[i]).number_of_jobs_serviced
                                        is None)
                                &&& post.spec_next_id() == pre.spec_next_id() + d
                            })
                            &&& (d < 0 ==> {
                                &&& post.spec_workers().len() == pre.spec_workers().len()
                                &&& (forall|i: int|
                                    0 <= i < -d ==> (#[trigger] post.spec_workers()[i])
                                        == (WorkerState {
                                        id: pre.spec_workers()[i].id,
                                        stop_execution: true,
                                    }))
                                &&& (forall|i: int|
                                    -d <= i < pre.spec_workers().len()
                                        ==> post.spec_workers()[i] == pre.spec_workers()[i])
                                &&& post.spec_stats() == pre.spec_stats()
                                &&& post.spec_next_id() == pre.spec_next_id()
                            })
                        },
                        Err(_) => false,
                    }
                } else {
                    match r {
                        Ok(_) => false,
                        Err(e) => {
                            &&& e.reason is DynamicResizingError
                            &&& post.spec_workers() == pre.spec_workers()
                            &&& post.spec_stats() == pre.spec_stats()
                            &&& post.spec_next_id() == pre.spec_next_id()
                        },
                    }
                }
            }),
    {
        let n = self.worker_statistics.len();
        let mut dec: usize = 0;
        let mut inc: usize = 0;
        let mut i: usize = 0;
        while i < n
            invariant
                0 <= i <= n,
                n == self.spec_stats().len(),
                dec as int == spec_shed_intents(
                    self.spec_stats().subrange(0, i as int),
                    jobs_per_duration_lower_bound as int,
                ),
                inc as int == spec_grow_intents(
                    self.spec_stats().subrange(0, i as int),
                    jobs_per_duration_lower_bound as int,
                    jobs_per_duration_upper_bound as int,
                ),
                dec as int + inc as int <= i as int,
            decreases n - i,
        {
            let ghost prefix = self.spec_stats().subrange(0, i as int);
            match self.worker_statistics[i].number_of_jobs_serviced {
                Some(count) => {
                    if count < jobs_per_duration_lower_bound {
                        dec = dec + 1;
                    } else if count > jobs_per_duration_upper_bound {
                        inc = inc + 1;
                    }
                },
                None => {},
            }
            proof {
                let next = self.spec_stats().subrange(0, (i + 1) as int);
                assert(next.drop_last() =~= prefix);
                assert(next.last() == self.spec_stats()[i as int]);
            }
            i = i + 1;
        }
        proof {
            assert(self.spec_stats().subrange(0, n as int) =~= self.spec_stats());
        }
        let len = self.workers.len();
        let min128 = self.min_pool_size as u128;
        let max128 = self.max_pool_size as u128;
        let len128 = len as u128;
        let dec128 = dec as u128;
        let inc128 = inc as u128;
        // The mathematical desired size is len + inc - dec; compare
        // without subtraction to stay within unsigned arithmetic.
        let target128: u128 = if len128 + inc128 < min128 + dec128 {
            min128
        } else if len128 + inc128 > max128 + dec128 {
            max128
        } else {
            len128 + inc128 - dec128
        };
        if target128 >= len128 {
            let grow = (target128 - len128) as usize;
            if grow > i32::MAX as usize {
                return Err(ThreadPoolError::new(ThreadPoolErrorReason::DynamicResizingError));
            }
            let mut added: usize = 0;
            while added < grow
                invariant
                    0 <= added <= grow,
                    grow <= i32::MAX as usize,
                    self.wf(),
                    self.min_pool_size == old(self).min_pool_size,
                    self.max_pool_size == old(self).max_pool_size,
                    self.spec_workers().len() == old(self).spec_workers().len() + added,
                    old(self).spec_workers().len() + grow <= usize::MAX,
                    forall|i: int|
                        0 <= i < old(self).spec_workers().len() ==> self.spec_workers()[i] == old(
                            self,
                        ).spec_workers()[i],
                    forall|i: int|
                        old(self).spec_workers().len() <= i < self.spec_workers().len()
                            ==> !(#[trigger] self.spec_workers()[i]).stop_execution,
                    self.spec_stats().len() == old(self).spec_stats().len() + added,
                    forall|i: int|
                        0 <= i < old(self).spec_stats().len() ==> self.spec_stats()[i] == old(
                            self,
                        ).spec_stats()[i],
                    forall|i: int|
                        old(self).spec_stats().len() <= i < self.spec_stats().len()
                            ==> (#[trigger] self.spec_stats()[i]).number_of_jobs_serviced is None,
                    self.spec_next_id() == old(self).spec_next_id() + added,
                decreases grow - added,
            {
                let new_id = self.get_next_id();
                self.worker_statistics.push(Statistics { number_of_jobs_serviced: None });
                self.workers.push(WorkerState { id: new_id, stop_execution: false });
                added = added + 1;
            }
            Ok(grow as i32)
        } else {
            let shed = (len128 - target128) as usize;
            if shed > i32::MAX as usize {
                return Err(ThreadPoolError::new(ThreadPoolErrorReason::DynamicResizingError));
            }
            let mut stopped: usize = 0;
            while stopped < shed
                invariant
                    0 <= stopped <= shed,
                    shed <= self.spec_workers().len(),
                    self.wf(),
                    self.min_pool_size == old(self).min_pool_size,
                    self.max_pool_size == old(self).max_pool_size,
                    self.spec_workers().len() == old(self).spec_workers().len(),
                    forall|i: int|
                        0 <= i < stopped as int ==> (#[trigger] self.spec_workers()[i])
                            == (WorkerState {
                            id: old(self).spec_workers()[i].id,
                            stop_execution: true,
                        }),
                    forall|i: int|
                        stopped as int <= i < self.spec_workers().len() ==> self.spec_workers()[i]
                            == old(self).spec_workers()[i],
                    self.spec_stats() == old(self).spec_stats(),
                    self.spec_next_id() == old(self).spec_next_id(),
                decreases shed - stopped,
            {
                let w_id = self.workers[stopped].id;
                self.workers.set(stopped, WorkerState { id: w_id, stop_execution: true });
                stopped = stopped + 1;
            }
            Ok(0i32 - (shed as i32))
        }
    }
}

/// One step of a worker's statistics window: called as a job is
/// taken up, with the count of jobs serviced so far and the seconds
/// elapsed since the window opened. When the window has run out,
/// the count is published (returned) and the window restarts;
/// either way the job about to run is counted.
pub fn worker_window_step(job_count: usize, elapsed_secs: u64) -> (r: (Option<usize>, usize))
    requires
        job_count < usize::MAX,
    ensures
        elapsed_secs > COUNT_RESET_TIME_SECS ==> r == (Some(job_count), 1usize),
        elapsed_secs <= COUNT_RESET_TIME_SECS ==> r == (None::<usize>, (job_count + 1) as usize),
{
    if elapsed_secs > COUNT_RESET_TIME_SECS {
        (Some(job_count), 1)
    } else {
        (None, job_count + 1)
    }
}

} // verus!
