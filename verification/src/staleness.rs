//! The staleness policy: when is a cached record too old to serve?
//!
//! A record refreshed at `last_update_time` is stale at time `now` exactly
//! when more than `MINIMUM_UPDATE_TIME_SECONDS` have elapsed.  A clock that
//! appears to have run backwards (`now < last_update_time`) never makes a
//! record stale: a negative or zero elapsed time favours cache stability
//! over clock anomalies.

use vstd::prelude::*;

verus! {

/// The staleness window, in seconds: a cached record older than this must
/// be refreshed before it is served.
pub const MINIMUM_UPDATE_TIME_SECONDS: i64 = 1800;

/// A record refreshed at `last_update_time` is stale at `now` exactly when
/// more than the staleness window has elapsed since the refresh.
pub open spec fn is_stale(last_update_time: int, now: int) -> bool {
    now - last_update_time > MINIMUM_UPDATE_TIME_SECONDS
}

/// Decides whether the record refreshed at `last_update_time` must be
/// fetched again at time `now`.
pub fn should_update(last_update_time: i64, now: i64) -> (stale: bool)
    ensures
        stale == is_stale(last_update_time as int, now as int),
{
    (now as i128) - (last_update_time as i128) > (MINIMUM_UPDATE_TIME_SECONDS as i128)
}

/// Clock skew never forces a refresh: whenever `now` lies at or before the
/// stored timestamp, the record is not stale.
pub proof fn lemma_clock_skew_not_stale(last_update_time: int, now: int)
    requires
        now <= last_update_time,
    ensures
        !is_stale(last_update_time, now),
{
}

/// Relies on `std::time::SystemTime::now`: returns the seconds elapsed
/// since the Unix epoch according to the system clock.  Nothing is promised
/// of the value; callers hand it to the policy and to the lookup service as
/// the current time.
#[verifier::external_body]
pub fn get_timestamp_secs() -> i64 {
    match std::time::SystemTime::now().duration_since(std::time::UNIX_EPOCH) {
        Ok(elapsed) => elapsed.as_secs() as i64,
        Err(_) => 0,
    }
}

} // verus!
