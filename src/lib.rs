//! A fork-join pool that runs every unit of work inline, on the calling
//! context, with exactly one logical worker.

mod broadcast;
mod context;
mod join;
mod pool;
mod scope;
mod spawn;
mod worker;

pub use broadcast::{broadcast, lemma_broadcast_context_matches_pool, spawn_broadcast};
pub use context::{sole_broadcast_context, BroadcastContext, FnContext, ThreadBuilder, Yield};
pub use join::{join, join_context};
pub use pool::{lemma_build_ignores_requested_count, logical_workers, ThreadPool, ThreadPoolBuildError, ThreadPoolBuilder};
pub use scope::{in_place_scope, in_place_scope_fifo, scope, scope_fifo, Scope, ScopeFifo};
pub use spawn::{spawn, spawn_fifo};
pub use worker::{current_num_threads, current_thread_index, max_num_threads, yield_local, yield_now};
