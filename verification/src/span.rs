//! Durations of the `chrono` crate, as far as the metrics produce them.

use vstd::prelude::*;

verus! {

/// `chrono::TimeDelta` (also exported by `chrono` as `Duration`), opaque to the
/// verifier.
#[verifier::external_type_specification]
#[verifier::external_body]
pub struct ExTimeDelta(chrono::TimeDelta);

/// The value that `chrono::TimeDelta::seconds` returns for `seconds`.
pub uninterp spec fn seconds_delta(seconds: i64) -> chrono::TimeDelta;

/// The largest number of seconds, in either direction, that
/// `chrono::TimeDelta::seconds` accepts.
pub const MAX_DELTA_SECONDS: i64 = 9_223_372_036_854_775;

/// Calls `chrono::TimeDelta::seconds`, which panics outside of the admitted
/// range and otherwise builds the delta of exactly `seconds` seconds.
#[verifier::external_body]
pub(crate) fn delta_from_seconds(seconds: i64) -> (delta: chrono::TimeDelta)
    requires
        -MAX_DELTA_SECONDS <= seconds <= MAX_DELTA_SECONDS,
    ensures
        delta == seconds_delta(seconds),
{
    chrono::TimeDelta::seconds(seconds)
}

/// The signed number of seconds from `earlier` to `later`.
pub open spec fn gap_seconds(later: u32, earlier: u32) -> int {
    later - earlier
}

/// The span between two block timestamps, negative where the later block
/// carries the smaller timestamp.
pub fn time_between(later: u32, earlier: u32) -> (delta: chrono::TimeDelta)
    ensures
        delta == seconds_delta(gap_seconds(later, earlier) as i64),
{
    delta_from_seconds(later as i64 - earlier as i64)
}

} // verus!
