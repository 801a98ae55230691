use vstd::prelude::*;

verus! {

/// The number of logical workers that every pool, scope and broadcast reports.
pub open spec fn logical_workers() -> nat {
    1
}

/// The handle of the computation resource: it holds no state and always
/// reports one worker.
pub struct ThreadPool;

/// Configuration of a pool. The requested worker count is recorded but has no
/// effect on the pool that is built.
pub struct ThreadPoolBuilder {
    requested: usize,
}

/// The error a fallible build would report; this pool never produces it.
#[derive(Debug)]
pub struct ThreadPoolBuildError;

impl ThreadPoolBuildError {
    /// The error's message.
    pub fn to_string(&self) -> (r: String)
        ensures
            r@ == "ThreadPoolBuildError"@,
    {
        String::from_str("ThreadPoolBuildError")
    }
}

impl ThreadPoolBuilder {
    /// The worker count that was last requested (0: none requested).
    pub closed spec fn requested_threads(self) -> usize {
        self.requested
    }

    /// What `build` returns for this configuration.
    pub open spec fn spec_build(self) -> Result<ThreadPool, ThreadPoolBuildError> {
        Ok(ThreadPool)
    }

    /// A builder with no worker count requested.
    pub fn new() -> (r: Self)
        ensures
            r.requested_threads() == 0,
    {
        ThreadPoolBuilder { requested: 0 }
    }

    /// Records `n` as the requested worker count; the built pool still has one.
    pub fn num_threads(self, n: usize) -> (r: Self)
        ensures
            r.requested_threads() == n,
    {
        ThreadPoolBuilder { requested: n }
    }

    /// Builds the pool; this never fails.
    pub fn build(self) -> (r: Result<ThreadPool, ThreadPoolBuildError>)
        ensures
            r == self.spec_build(),
    {
        Ok(ThreadPool)
    }

    /// Sets up the global pool; this never fails and changes nothing.
    pub fn build_global(self) -> (r: Result<(), ThreadPoolBuildError>)
        ensures
            r is Ok,
    {
        Ok(())
    }
}

impl ThreadPool {
    /// The worker count this pool reports.
    pub open spec fn spec_num_threads(self) -> nat {
        logical_workers()
    }

    /// Builds a pool from `builder`; this never fails.
    pub fn new(builder: ThreadPoolBuilder) -> (r: Result<Self, ThreadPoolBuildError>)
        ensures
            r == builder.spec_build(),
    {
        builder.build()
    }

    /// Runs `op` in place and hands back its result unchanged.
    pub fn install<OP, R>(&self, op: OP) -> (r: R) where OP: FnOnce() -> R + Send, R: Send
        requires
            op.requires(()),
        ensures
            op.ensures((), r),
    {
        op()
    }

    /// The number of workers of this pool: always one.
    pub fn current_num_threads(&self) -> (r: usize)
        ensures
            r == self.spec_num_threads(),
    {
        1
    }
}

/// Whatever worker count was requested of a builder, building succeeds and the
/// pool reports exactly one worker.
pub proof fn lemma_build_ignores_requested_count(b: ThreadPoolBuilder)
    ensures
        b.spec_build() is Ok,
        b.spec_build()->Ok_0.spec_num_threads() == 1,
{
}

} // verus!
