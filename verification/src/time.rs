//! Timestamps, checked against what the `chrono` crate can represent.

use vstd::prelude::*;

verus! {

/// Seconds since 1970-01-01 00:00:00 UTC that `chrono` can represent as a
/// `DateTime<Utc>`: from 1 January of the year -262143 (262144 BCE) to 31 December 262142 CE.
pub open spec fn timestamp_in_range(secs: int) -> bool {
    -8334601228800 <= secs <= 8210266876799
}

/// Whether `chrono::DateTime::from_timestamp(secs, 0)` gives a value. Trusted:
/// it does exactly when `secs` is in `chrono`'s range (the day count is checked
/// against the supported years; a zero nanosecond part is always valid).
#[verifier::external_body]
pub(crate) fn utc_timestamp_representable(secs: i64) -> (r: bool)
    ensures
        r == timestamp_in_range(secs as int),
{
    chrono::DateTime::from_timestamp(secs, 0).is_some()
}

} // verus!
