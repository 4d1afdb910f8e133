//! Per-thread tracing-context propagation: a context store holding the
//! currently active `{trace_id, span_id}` pair, spans describing timed units
//! of work, and scoped guards that install a span's identity on enter and
//! conditionally restore the displaced context on release.

mod clock;
pub mod context;
pub mod laws;
pub mod span;

use vstd::prelude::*;

verus! {

/// Adds two machine-word integers; the caller rules out overflow.
pub fn add(left: usize, right: usize) -> (sum: usize)
    requires
        left + right <= usize::MAX,
    ensures
        sum == left + right,
{
    left + right
}

} // verus!
