//! The dispatcher: a pool that runs jobs either one after the other on the
//! calling thread, or on a fixed set of worker threads that share one queue.
//!
//! The threads, the queue and the shutdown are those of the crate
//! `jlizard_simple_threadpool`. This module decides the size of the pool,
//! keeps it beside the pool, and states what each operation does in terms of
//! that size.
use crate::lib_utils::errors::{ErrorView, Vex2PdfError};
use crate::lib_utils::text::{decimal, usize_to_decimal};
use vstd::prelude::*;

verus! {

/// The pool of `jlizard_simple_threadpool`, of which nothing is known but what
/// the functions below state.
#[verifier::external_type_specification]
#[verifier::external_body]
pub struct ExWorkerPool(jlizard_simple_threadpool::threadpool::ThreadPool);

/// The number of jobs that a pool of `jlizard_simple_threadpool` was made to run
/// side by side: the size that its constructor was given.
pub uninterp spec fn pool_size(pool: jlizard_simple_threadpool::threadpool::ThreadPool) -> u8;

/// How a pool runs its jobs.
#[derive(Clone, Copy, Debug, PartialEq, Eq, Structural)]
pub enum PoolMode {
    /// No worker threads and no queue: every job runs on the submitting thread.
    Disabled,
    /// That many worker threads, which take jobs from one shared queue.
    Active(u8),
}

/// The mode of a pool of the given size: size 1 disables the workers.
pub open spec fn mode_of_size(size: u8) -> PoolMode {
    if size == 1 {
        PoolMode::Disabled
    } else {
        PoolMode::Active(size)
    }
}

/// The size of the pool for a requested number of jobs, on a machine that
/// offers `available` threads: 0 asks for all that the machine offers, at most
/// 255; any other number is taken as it is.
pub open spec fn resolved_size(requested: u8, available: nat) -> u8 {
    if requested != 0 {
        requested
    } else if available > 255 {
        255u8
    } else {
        available as u8
    }
}

/// The number of jobs that the settings ask for: 0, for as many as the machine
/// offers, where nothing is set.
pub open spec fn requested_jobs(max_jobs: Option<u8>) -> u8 {
    match max_jobs {
        Some(jobs) => jobs,
        None => 0u8,
    }
}

/// The line that says that the machine offers no thread to run a pool with.
pub open spec fn no_threads_message() -> Seq<char> {
    "Unable to find any threads to run with. Possible system-side restrictions or limitations"@
}

/// The line that describes a pool of the given size to the operator, as the
/// pool of `jlizard_simple_threadpool` describes itself.
pub open spec fn description_of_size(size: u8) -> Seq<char> {
    if size == 1 {
        "Concurrency Disabled: running all jobs sequentially in main thread. A user override forced this through an VEX2PDF_MAX_JOBS or the --max-jobs cli argument"@
    } else {
        "Concurrency Enabled: running with "@ + decimal(size as nat) + " jobs"@
    }
}

/// A job was run to its end, and taken without error, before the call returned.
pub open spec fn ran_before_return<F: FnOnce()>(f: F, res: Result<(), String>) -> bool {
    res is Ok && call_ensures(f, (), ())
}

/// Calls `ThreadPool::new` of `jlizard_simple_threadpool` with a size of 1 or
/// more. By the crate's source the pool records the size, spawns no thread for
/// size 1, and spawns that many workers on one queue for any larger size. Size
/// 0 is left out: the crate then asks the machine and panics without an answer.
#[verifier::external_body]
fn pool_with_size(size: u8) -> (pool: jlizard_simple_threadpool::threadpool::ThreadPool)
    requires
        size >= 1,
    ensures
        pool_size(pool) == size,
{
    jlizard_simple_threadpool::threadpool::ThreadPool::new(size)
}

/// Calls `ThreadPool::execute` of `jlizard_simple_threadpool`. By the crate's
/// source a pool of size 1 runs the job before it returns and reports success;
/// a larger pool puts the job on the queue and reports whether the queue took
/// it. Of a queued job nothing is claimed. The error is handed on as its
/// message.
#[verifier::external_body]
fn pool_execute<F>(pool: &jlizard_simple_threadpool::threadpool::ThreadPool, f: F) -> (res: Result<
    (),
    String,
>) where F: FnOnce() + Send + 'static
    requires
        call_requires(f, ()),
    ensures
        pool_size(*pool) == 1 ==> ran_before_return(f, res),
{
    match pool.execute(f) {
        Ok(()) => Ok(()),
        Err(e) => Err(e.to_string()),
    }
}

/// Drops a pool of `jlizard_simple_threadpool`. By the crate's source the drop
/// closes the queue and then joins every worker, so it returns when the queued
/// jobs have run. Nothing is claimed of the jobs.
#[verifier::external_body]
fn pool_join(pool: jlizard_simple_threadpool::threadpool::ThreadPool) {
    drop(pool)
}

/// Resolves a requested number of jobs against what the machine offers.
pub fn resolve_pool_size(requested: u8, available: usize) -> (size: u8)
    ensures
        size == resolved_size(requested, available as nat),
        requested != 0 || available >= 1 ==> size >= 1,
{
    if requested != 0 {
        requested
    } else if available > 255 {
        255
    } else {
        available as u8
    }
}

/// A pool of workers, or none: fixed when the pool is made, and never changed
/// while the pool lives.
pub struct Dispatcher {
    pool: jlizard_simple_threadpool::threadpool::ThreadPool,
    size: u8,
}

impl Dispatcher {
    #[verifier::type_invariant]
    spec fn has_its_size(&self) -> bool {
        pool_size(self.pool) == self.size && self.size >= 1
    }

    /// The number of jobs that the pool runs side by side: 1 or more.
    pub closed spec fn num_threads(&self) -> u8 {
        self.size
    }

    /// Whether jobs run on the submitting thread or on workers.
    pub open spec fn mode(&self) -> PoolMode {
        mode_of_size(self.num_threads())
    }

    /// A pool of the given size: disabled for size 1, else with that many
    /// workers, all spawned here. For "as many as the machine offers" see
    /// [`Dispatcher::with_parallelism`].
    pub fn new(pool_size: u8) -> (pool: Self)
        requires
            pool_size >= 1,
        ensures
            pool.num_threads() == pool_size,
    {
        Dispatcher { pool: pool_with_size(pool_size), size: pool_size }
    }

    /// A pool for a requested number of jobs on a machine that offers `available`
    /// threads: a request of 0 takes all that the machine offers, at most 255.
    /// There must be a thread to run on; [`Dispatcher::for_jobs`] tests that.
    pub fn with_parallelism(requested: u8, available: usize) -> (pool: Self)
        requires
            resolved_size(requested, available as nat) >= 1,
        ensures
            pool.num_threads() == resolved_size(requested, available as nat),
    {
        let size = resolve_pool_size(requested, available);
        Dispatcher { pool: pool_with_size(size), size }
    }

    /// A pool for the number of jobs that the settings ask for, where no number
    /// or 0 asks for all that the machine offers. Fails exactly when all that the
    /// machine offers is asked for and it offers nothing: there is no number to
    /// fall back to.
    pub fn for_jobs(max_jobs: Option<u8>, available: usize) -> (res: Result<Self, Vex2PdfError>)
        ensures
            match res {
                Ok(pool) => pool.num_threads() == resolved_size(
                    requested_jobs(max_jobs),
                    available as nat,
                ) && pool.num_threads() >= 1,
                Err(e) => resolved_size(requested_jobs(max_jobs), available as nat) == 0 && e@
                    == ErrorView::ConcurrencyError(no_threads_message()),
            },
    {
        let requested: u8 = match max_jobs {
            Some(jobs) => jobs,
            None => 0,
        };
        if resolve_pool_size(requested, available) == 0 {
            return Err(
                Vex2PdfError::ConcurrencyError(
                    String::from_str(
                        "Unable to find any threads to run with. Possible system-side restrictions or limitations",
                    ),
                ),
            );
        }
        Ok(Self::with_parallelism(requested, available))
    }

    /// Runs a job. A disabled pool runs it to its end before this returns, and
    /// succeeds. An active pool queues it for the next free worker and returns
    /// at once; it fails only when no worker is left to take the job.
    pub fn execute<F>(&self, f: F) -> (res: Result<(), Vex2PdfError>) where
        F: FnOnce() + Send + 'static,

        requires
            call_requires(f, ()),
        ensures
            self.mode() is Disabled ==> res is Ok && call_ensures(f, (), ()),
            res matches Err(e) ==> e@ is ConcurrencyError,
    {
        proof {
            use_type_invariant(self);
        }
        match pool_execute(&self.pool, f) {
            Ok(()) => Ok(()),
            Err(reason) => Err(Vex2PdfError::from_send_failure(reason.as_str())),
        }
    }

    /// Whether the pool is disabled, so that jobs run on the submitting thread.
    pub fn is_single_threaded(&self) -> (single: bool)
        ensures
            single == (self.mode() is Disabled),
            self.num_threads() >= 1,
    {
        proof {
            use_type_invariant(self);
        }
        self.size == 1
    }

    /// The line that describes the pool to the operator.
    pub fn to_string(&self) -> (text: String)
        ensures
            text@ == description_of_size(self.num_threads()),
            self.num_threads() >= 1,
    {
        proof {
            use_type_invariant(self);
        }
        if self.size == 1 {
            String::from_str(
                "Concurrency Disabled: running all jobs sequentially in main thread. A user override forced this through an VEX2PDF_MAX_JOBS or the --max-jobs cli argument",
            )
        } else {
            let mut text = String::from_str("Concurrency Enabled: running with ");
            text.append(usize_to_decimal(self.size as usize).as_str());
            text.append(" jobs");
            text
        }
    }

    /// Closes the queue, then waits until every worker has ended, which they do
    /// when the queue is empty. Returns at once for a disabled pool.
    pub fn shutdown(self) {
        pool_join(self.pool)
    }
}

} // verus!
