use vstd::prelude::*;

verus! {

/// The identity of the worker that runs one broadcast call, and how many
/// workers the broadcast reaches.
#[derive(Debug, Clone, Copy)]
pub struct BroadcastContext {
    pub index: usize,
    pub num_threads: usize,
}

/// The one context that a broadcast hands out: worker 0 of 1.
pub open spec fn sole_broadcast_context() -> BroadcastContext {
    BroadcastContext { index: 0, num_threads: 1 }
}

impl BroadcastContext {
    pub fn index(&self) -> (r: usize)
        ensures
            r == self.index,
    {
        self.index
    }

    pub fn num_threads(&self) -> (r: usize)
        ensures
            r == self.num_threads,
    {
        self.num_threads
    }
}

/// The token handed to each closure of `join_context`.
#[derive(Debug, Clone, Copy)]
pub struct FnContext;

impl FnContext {
    /// Whether the unit of work moved to another worker: never, with one worker.
    pub open spec fn spec_migrated(self) -> bool {
        false
    }

    pub fn migrated(self) -> (r: bool)
        ensures
            r == self.spec_migrated(),
            !r,
    {
        false
    }
}

/// What a cooperative yield found: work that it ran, or nothing to do.
#[derive(Debug, Clone, Copy, PartialEq, Eq, Structural)]
pub enum Yield {
    Executed,
    Idle,
}

/// Stands for the builder of a worker thread; no thread is ever built.
pub struct ThreadBuilder;

} // verus!
