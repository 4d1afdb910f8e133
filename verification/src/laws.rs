use vstd::prelude::*;
use crate::context::Context;
use crate::span::Span;
use crate::span::restore_policy;

verus! {

/// Law: releases in reverse enter order restore perfectly. Enter `a` while
/// `c0` is current (saving `c0`), then enter `b` (saving `a`'s identity).
/// Releasing `b` first finds `b` current and brings back `a`'s identity;
/// releasing `a` then finds `a` current and brings back `c0`.
pub proof fn lemma_lifo_restore(c0: Context, a: Span, b: Span)
    ensures
        ({
            let after_b_release = restore_policy(b.identity(), b.identity(), a.identity());
            let after_a_release = restore_policy(after_b_release, a.identity(), c0);
            after_b_release == a.identity() && after_a_release == c0
        }),
{
}

/// Law: an out-of-order release never restores, and leaves a stale context
/// behind. Enter `a` while `c0` is current, then enter `b`. Releasing `a`
/// while `b` is still current changes nothing, since `a` is not current;
/// releasing `b` afterwards restores what `b` displaced — `a`'s identity —
/// even though `a`'s guard is already gone.
pub proof fn lemma_out_of_order_non_restore(c0: Context, a: Span, b: Span)
    requires
        a.identity() != b.identity(),
    ensures
        ({
            let after_a_release = restore_policy(b.identity(), a.identity(), c0);
            let after_b_release = restore_policy(after_a_release, b.identity(), a.identity());
            after_a_release == b.identity() && after_b_release == a.identity()
        }),
{
}

/// Law: under a monotonically non-decreasing clock — the start reading is no
/// later than the end reading — a span's recorded end time is no earlier
/// than its recorded start time.
pub proof fn lemma_end_not_before_start(s: Span, started: u128, ended: u128)
    requires
        started <= ended,
        s.start_time == Some(started),
        s.end_time == Some(ended),
    ensures
        s.end_time.unwrap() >= s.start_time.unwrap(),
{
}

} // verus!
