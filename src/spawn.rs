use vstd::prelude::*;

verus! {

/// Runs `body` at once and returns only when it has completed: the work is
/// never deferred past this call.
pub fn spawn<BODY>(body: BODY) where BODY: FnOnce() + Send + 'static
    requires
        body.requires(()),
    ensures
        body.ensures((), ()),
{
    body()
}

/// Identical to `spawn`: with one worker there is one order.
pub fn spawn_fifo<BODY>(body: BODY) where BODY: FnOnce() + Send + 'static
    requires
        body.requires(()),
    ensures
        body.ensures((), ()),
{
    body()
}

} // verus!
