//! A verified time-windowed cache for market item records.
//!
//! Item records fetched from a remote market service are kept in a keyed
//! store together with the time of their last refresh.  A staleness policy
//! decides, from the stored timestamp and the current time, whether a cached
//! record may be served or a fresh remote fetch is required; the lookup
//! service ties the store, the policy, and the outcome of such a fetch
//! together into a single get-or-refresh operation.

pub mod lookup;
pub mod record;
pub mod staleness;
pub mod store;
pub mod text;
pub mod token;
