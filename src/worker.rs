use vstd::prelude::*;
use crate::pool::logical_workers;

verus! {

/// The number of workers of the current pool: always one.
pub fn current_num_threads() -> (r: usize)
    ensures
        r == logical_workers(),
{
    1
}

/// The index of the worker running the caller: always worker 0.
pub fn current_thread_index() -> (r: Option<usize>)
    ensures
        r == Some(0usize),
{
    Some(0)
}

/// The largest worker count any pool can have here: one.
pub fn max_num_threads() -> (r: usize)
    ensures
        r == logical_workers(),
{
    1
}

/// A scheduling hint. With one worker there is nothing else to run, so it
/// returns at once.
pub fn yield_now() {
}

/// A scheduling hint restricted to the local queue; there is none, so it
/// returns at once.
pub fn yield_local() {
}

} // verus!
