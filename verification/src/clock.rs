use vstd::prelude::*;

verus! {

/// The current time as seconds since the Unix epoch: the system clock, read
/// with `std::time::SystemTime::now()`, turned into a `chrono::DateTime<Utc>`
/// by chrono's `From<SystemTime>` and then into a count of seconds by
/// `timestamp()`. Nothing is claimed of the value, which is whatever the clock
/// reads; a clock before 1970 gives a negative count. The conversion unwraps
/// only for a clock beyond the years chrono can represent (about 262,000 years
/// from now).
#[verifier::external_body]
pub(crate) fn current_unix_timestamp() -> (now: i64) {
    chrono::DateTime::<chrono::Utc>::from(std::time::SystemTime::now()).timestamp()
}

} // verus!
