use vstd::prelude::*;

verus! {

/// Seconds between two automatic refreshes (five minutes).
pub const FETCH_INTERVAL_SECS: u64 = 300;

/// Seconds between two looks at the clock by the refresh worker.
pub const WORKER_TICK_SECS: u64 = 10;

/// Whether the refresh worker fetches now, given the whole seconds elapsed
/// since the last successful fetch; `None` where the clock reads a time before
/// that fetch, which counts as no time elapsed.
pub fn is_fetch_due(elapsed_secs: Option<u64>) -> (due: bool)
    ensures
        due == (elapsed_secs matches Some(s) && s >= FETCH_INTERVAL_SECS),
{
    let elapsed = match elapsed_secs {
        Some(s) => s,
        None => 0,
    };
    elapsed >= FETCH_INTERVAL_SECS
}

} // verus!
