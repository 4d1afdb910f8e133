use vstd::prelude::*;
use crate::clock::now_nanos;
use crate::context::Context;
use crate::context::ContextStore;

verus! {

/// One timed unit of work: a caller-supplied identity and the wall-clock
/// times at which it was entered and released, both absent until then.
/// Timestamps are nanoseconds since the Unix epoch.
#[derive(Debug)]
pub struct Span {
    pub trace_id: u128,
    pub span_id: u64,
    pub parent_span_id: u64,
    pub start_time: Option<u128>,
    pub end_time: Option<u128>,
}

impl Span {
    /// The `{trace_id, span_id}` pair this span installs while it is active.
    pub open spec fn identity(self) -> Context {
        Context { trace_id: self.trace_id, span_id: self.span_id }
    }

    /// Pure construction: no timestamps, no effect on any store.
    pub fn new(trace_id: u128, span_id: u64, parent_span_id: u64) -> (s: Span)
        ensures
            s.trace_id == trace_id,
            s.span_id == span_id,
            s.parent_span_id == parent_span_id,
            s.start_time is None,
            s.end_time is None,
    {
        Span { trace_id, span_id, parent_span_id, start_time: None, end_time: None }
    }

    /// Records the current wall-clock reading as the start time, overwriting
    /// any earlier one; everything else is left as it was.
    pub fn start(&mut self)
        ensures
            final(self).start_time is Some,
            final(self).trace_id == old(self).trace_id,
            final(self).span_id == old(self).span_id,
            final(self).parent_span_id == old(self).parent_span_id,
            final(self).end_time == old(self).end_time,
    {
        self.start_time = Some(now_nanos());
    }

    /// Records the current wall-clock reading as the end time, overwriting
    /// any earlier one; everything else is left as it was.
    pub fn end(&mut self)
        ensures
            final(self).end_time is Some,
            final(self).trace_id == old(self).trace_id,
            final(self).span_id == old(self).span_id,
            final(self).parent_span_id == old(self).parent_span_id,
            final(self).start_time == old(self).start_time,
    {
        self.end_time = Some(now_nanos());
    }

    /// Makes this span current on the store's thread: stamps its start time,
    /// installs its identity, and hands back a guard that owns the span
    /// together with the context it displaced. This is the single point where
    /// a span becomes current.
    pub fn enter(self, store: &mut ContextStore) -> (guard: SpanGuard)
        ensures
            final(store)@ == self.identity(),
            guard.saved() == old(store)@,
            guard.span().trace_id == self.trace_id,
            guard.span().span_id == self.span_id,
            guard.span().parent_span_id == self.parent_span_id,
            guard.span().start_time is Some,
            guard.span().end_time == self.end_time,
    {
        let mut span = self;
        span.start();
        let saved_context = store.replace(
            Context { trace_id: span.trace_id, span_id: span.span_id },
        );
        SpanGuard { saved_context, span }
    }
}

/// Constructs an inert span with the given identity and no timestamps.
pub fn create_span(trace_id: u128, span_id: u64, parent_span_id: u64) -> (s: Span)
    ensures
        s.trace_id == trace_id,
        s.span_id == span_id,
        s.parent_span_id == parent_span_id,
        s.start_time is None,
        s.end_time is None,
{
    Span::new(trace_id, span_id, parent_span_id)
}

/// What a store holds after a guard releases over it: the displaced context
/// comes back only if the releasing span's identity is still current;
/// otherwise the store is left untouched, so a late release never clobbers a
/// more recently installed context.
pub open spec fn restore_policy(current: Context, identity: Context, saved: Context) -> Context {
    if current == identity {
        saved
    } else {
        current
    }
}

/// Couples a started span with the context it displaced. It exists only
/// between enter and release and owns the span exclusively for that interval.
pub struct SpanGuard {
    saved_context: Context,
    span: Span,
}

impl SpanGuard {
    /// The context that was current just before the guarded span was entered.
    pub closed spec fn saved(self) -> Context {
        self.saved_context
    }

    /// The span this guard keeps active.
    pub closed spec fn span(self) -> Span {
        self.span
    }

    /// Releases the guard: stamps the span's end time, then restores the
    /// displaced context exactly when the span is still current, per
    /// `restore_policy`. Returns the ended span.
    pub fn release(self, store: &mut ContextStore) -> (span: Span)
        ensures
            final(store)@ == restore_policy(old(store)@, self.span().identity(), self.saved()),
            span.trace_id == self.span().trace_id,
            span.span_id == self.span().span_id,
            span.parent_span_id == self.span().parent_span_id,
            span.start_time == self.span().start_time,
            span.end_time is Some,
    {
        let SpanGuard { saved_context, span } = self;
        let mut span = span;
        span.end();
        let cur_context = store.get();
        if cur_context.trace_id == span.trace_id && cur_context.span_id == span.span_id {
            store.set(saved_context);
        }
        span
    }
}

} // verus!
