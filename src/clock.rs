use vstd::prelude::*;

verus! {

/// Relies on chrono::Utc::now and DateTime::timestamp_micros: the current
/// wall-clock time, in microseconds since the Unix epoch. Nothing is promised
/// of its value, not even that it never goes back.
#[verifier::external_body]
pub(crate) fn now_micros() -> (r: i64) {
    chrono::Utc::now().timestamp_micros()
}

} // verus!
