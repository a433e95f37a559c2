//! Timestamps: milliseconds since the epoch, rendered externally as
//! ISO-8601 strings by the chrono crate.

use vstd::prelude::*;

verus! {

/// The ISO-8601 rendering of a timestamp in milliseconds since the epoch.
/// The rendering depends on the timestamp alone; for the few timestamps so
/// large that no calendar date exists for them, it is the empty string.
pub uninterp spec fn rfc3339_of(millis: i64) -> Seq<char>;

/// Relies on chrono's `DateTime::<Utc>::from_timestamp_millis` and
/// `DateTime::to_rfc3339`: both are pure, so the rendering is a function of
/// the millisecond value alone. A millisecond value outside chrono's
/// representable range has no date and is rendered as the empty string.
#[verifier::external_body]
pub fn format_rfc3339(millis: i64) -> (r: String)
    ensures
        r@ == rfc3339_of(millis),
{
    chrono::DateTime::<chrono::Utc>::from_timestamp_millis(millis)
        .map(|dt| dt.to_rfc3339())
        .unwrap_or_default()
}

/// Relies on chrono's `Utc::now`: the wall clock, about which nothing is
/// promised; every caller must work for any value.
#[verifier::external_body]
pub fn now_millis() -> i64 {
    chrono::Utc::now().timestamp_millis()
}

} // verus!
