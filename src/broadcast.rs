use vstd::prelude::*;
use crate::context::{sole_broadcast_context, BroadcastContext};
use crate::pool::logical_workers;

verus! {

/// Runs `op` once for each logical worker, that is once, as worker 0 of 1,
/// and returns its result.
pub fn broadcast<OP, R>(op: OP) -> (r: R) where OP: Fn(BroadcastContext) -> R + Sync, R: Send
    requires
        op.requires((sole_broadcast_context(),)),
    ensures
        op.ensures((sole_broadcast_context(),), r),
{
    op(BroadcastContext { index: 0, num_threads: 1 })
}

/// As `broadcast`; the call completes before this function returns.
pub fn spawn_broadcast<OP, R>(op: OP) -> (r: R) where
    OP: Fn(BroadcastContext) -> R + Send + Sync + 'static,
    R: Send + 'static,

    requires
        op.requires((sole_broadcast_context(),)),
    ensures
        op.ensures((sole_broadcast_context(),), r),
{
    op(BroadcastContext { index: 0, num_threads: 1 })
}

/// The context a broadcast hands out names a worker of the pool, and reports
/// the same worker count as `current_num_threads`.
pub proof fn lemma_broadcast_context_matches_pool()
    ensures
        sole_broadcast_context().index < logical_workers(),
        sole_broadcast_context().num_threads == logical_workers(),
{
}

} // verus!
