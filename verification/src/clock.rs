use vstd::prelude::*;

verus! {

#[verifier::external_type_specification]
#[verifier::external_body]
pub struct ExSystemTime(std::time::SystemTime);

/// Relies on std::time::SystemTime::now: one wall-clock reading. Nothing is
/// promised of it; two readings may come back in any order.
#[verifier::external_body]
fn wall_clock_now() -> (t: std::time::SystemTime) {
    std::time::SystemTime::now()
}

/// Relies on std::time::SystemTime::duration_since: the time elapsed from the
/// Unix epoch to `t`, or `None` for a reading that lies before the epoch.
#[verifier::external_body]
fn since_unix_epoch(t: &std::time::SystemTime) -> (d: Option<core::time::Duration>) {
    match t.duration_since(std::time::UNIX_EPOCH) {
        Ok(elapsed) => Some(elapsed),
        Err(_) => None,
    }
}

/// Relies on core::time::Duration::as_nanos: the duration in whole
/// nanoseconds.
#[verifier::external_body]
fn duration_nanos(d: &core::time::Duration) -> (n: u128) {
    d.as_nanos()
}

/// One wall-clock reading, as nanoseconds since the Unix epoch. A reading
/// that lies before the epoch counts as zero.
pub(crate) fn now_nanos() -> (t: u128) {
    let now = wall_clock_now();
    match since_unix_epoch(&now) {
        Some(elapsed) => duration_nanos(&elapsed),
        None => 0,
    }
}

} // verus!
