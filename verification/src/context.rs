use vstd::prelude::*;

verus! {

/// The `{trace_id, span_id}` pair considered currently active on one
/// execution thread.
#[derive(Clone, Copy, Debug, PartialEq, Eq, Structural)]
pub struct Context {
    pub trace_id: u128,
    pub span_id: u64,
}

impl Context {
    /// The sentinel meaning "no active span": both identifiers zero.
    pub open spec fn is_root(self) -> bool {
        self.trace_id == 0 && self.span_id == 0
    }

    /// The context of a fresh thread, before any span is entered.
    pub fn root() -> (c: Context)
        ensures
            c.is_root(),
    {
        Context { trace_id: 0, span_id: 0 }
    }
}

/// One execution thread's mutable cell holding its currently active context.
///
/// Each thread owns exactly one store and the store is never shared, so
/// entering or releasing a span against one store cannot be observed through
/// any other store.
pub struct ContextStore {
    current: Context,
}

impl View for ContextStore {
    type V = Context;

    closed spec fn view(&self) -> Context {
        self.current
    }
}

impl ContextStore {
    /// A fresh store: no span is active yet, the root context is current.
    pub fn new() -> (s: ContextStore)
        ensures
            s@.is_root(),
    {
        ContextStore { current: Context::root() }
    }

    /// Returns a copy of the current context; no side effects.
    pub fn get(&self) -> (c: Context)
        ensures
            c == self@,
    {
        self.current
    }

    /// Unconditionally overwrites the current context.
    pub fn set(&mut self, ctx: Context)
        ensures
            final(self)@ == ctx,
    {
        self.current = ctx;
    }

    /// Installs `ctx` and returns the context that was current immediately
    /// before, as a single step from the owning thread's point of view.
    pub fn replace(&mut self, ctx: Context) -> (prev: Context)
        ensures
            final(self)@ == ctx,
            prev == old(self)@,
    {
        let prev = self.current;
        self.current = ctx;
        prev
    }
}

/// A read-only snapshot of the active context on the store's thread.
pub fn current_context(store: &ContextStore) -> (c: Context)
    ensures
        c == store@,
{
    store.get()
}

} // verus!
