use vstd::prelude::*;
use core::marker::PhantomData;

verus! {

/// The boundary within which `scope` lets work be spawned. It owns no queue:
/// each spawned body has finished before `spawn` returns, so no child work is
/// pending when the scope's closure returns.
pub struct Scope<'scope> {
    marker: PhantomData<&'scope ()>,
}

/// As `Scope`, for `scope_fifo`.
pub struct ScopeFifo<'scope> {
    marker: PhantomData<&'scope ()>,
}

impl<'scope> Scope<'scope> {
    /// The scope value that opening a scope hands to its closure.
    pub closed spec fn opened() -> Self {
        Scope { marker: PhantomData }
    }

    fn fresh() -> (r: Self)
        ensures
            r == Self::opened(),
    {
        Scope { marker: PhantomData }
    }

    /// Runs `body` with this scope, to completion, before returning.
    pub fn spawn<BODY>(&self, body: BODY) where BODY: FnOnce(&Scope<'scope>) + Send + 'scope
        requires
            body.requires((self,)),
        ensures
            body.ensures((self,), ()),
    {
        body(self)
    }

    /// Identical to `spawn`: with one worker there is one order.
    pub fn spawn_fifo<BODY>(&self, body: BODY) where BODY: FnOnce(&Scope<'scope>) + Send + 'scope
        requires
            body.requires((self,)),
        ensures
            body.ensures((self,), ()),
    {
        body(self)
    }
}

impl<'scope> ScopeFifo<'scope> {
    /// The scope value that opening a scope hands to its closure.
    pub closed spec fn opened() -> Self {
        ScopeFifo { marker: PhantomData }
    }

    fn fresh() -> (r: Self)
        ensures
            r == Self::opened(),
    {
        ScopeFifo { marker: PhantomData }
    }

    /// Runs `body` with this scope, to completion, before returning.
    pub fn spawn<BODY>(&self, body: BODY) where BODY: FnOnce(&ScopeFifo<'scope>) + Send + 'scope
        requires
            body.requires((self,)),
        ensures
            body.ensures((self,), ()),
    {
        body(self)
    }

    /// Identical to `spawn`: with one worker there is one order.
    pub fn spawn_fifo<BODY>(&self, body: BODY) where
        BODY: FnOnce(&ScopeFifo<'scope>) + Send + 'scope,

        requires
            body.requires((self,)),
        ensures
            body.ensures((self,), ()),
    {
        body(self)
    }
}

/// Opens a scope, runs `op` with it and returns what `op` returns.
pub fn scope<'scope, OP, R>(op: OP) -> (r: R) where OP: FnOnce(&Scope<'scope>) -> R + Send, R: Send
    requires
        op.requires((&Scope::opened(),)),
    ensures
        op.ensures((&Scope::opened(),), r),
{
    let s = Scope::fresh();
    op(&s)
}

/// As `scope`, for a closure that need not be sendable.
pub fn in_place_scope<'scope, OP, R>(op: OP) -> (r: R) where OP: FnOnce(&Scope<'scope>) -> R
    requires
        op.requires((&Scope::opened(),)),
    ensures
        op.ensures((&Scope::opened(),), r),
{
    let s = Scope::fresh();
    op(&s)
}

/// Opens a fifo scope, runs `op` with it and returns what `op` returns.
pub fn scope_fifo<'scope, OP, R>(op: OP) -> (r: R) where
    OP: FnOnce(&ScopeFifo<'scope>) -> R + Send,
    R: Send,

    requires
        op.requires((&ScopeFifo::opened(),)),
    ensures
        op.ensures((&ScopeFifo::opened(),), r),
{
    let s = ScopeFifo::fresh();
    op(&s)
}

/// As `scope_fifo`, for a closure that need not be sendable.
pub fn in_place_scope_fifo<'scope, OP, R>(op: OP) -> (r: R) where
    OP: FnOnce(&ScopeFifo<'scope>) -> R,

    requires
        op.requires((&ScopeFifo::opened(),)),
    ensures
        op.ensures((&ScopeFifo::opened(),), r),
{
    let s = ScopeFifo::fresh();
    op(&s)
}

} // verus!
