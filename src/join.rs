use vstd::prelude::*;
use crate::context::FnContext;

verus! {

/// Runs `oper_a` to completion, then `oper_b`, and returns both results.
///
/// The two never run at the same time: closures that wait on each other to
/// make progress do not finish here.
pub fn join<A, B, RA, RB>(oper_a: A, oper_b: B) -> (r: (RA, RB)) where
    A: FnOnce() -> RA + Send,
    B: FnOnce() -> RB + Send,
    RA: Send,
    RB: Send,

    requires
        oper_a.requires(()),
        oper_b.requires(()),
    ensures
        oper_a.ensures((), r.0),
        oper_b.ensures((), r.1),
{
    let ra = oper_a();
    let rb = oper_b();
    (ra, rb)
}

/// As `join`, handing each closure a context that reports no migration.
pub fn join_context<A, B, RA, RB>(oper_a: A, oper_b: B) -> (r: (RA, RB)) where
    A: FnOnce(FnContext) -> RA + Send,
    B: FnOnce(FnContext) -> RB + Send,
    RA: Send,
    RB: Send,

    requires
        oper_a.requires((FnContext,)),
        oper_b.requires((FnContext,)),
    ensures
        oper_a.ensures((FnContext,), r.0),
        oper_b.ensures((FnContext,), r.1),
{
    let ra = oper_a(FnContext);
    let rb = oper_b(FnContext);
    (ra, rb)
}

} // verus!
