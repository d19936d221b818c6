//! Instants as text: when a team notification expires and when settings were
//! exported. The clock is read by the caller; this module only computes.

use vstd::prelude::*;
use vstd::string::*;
use crate::text::text_view;

verus! {

/// Seconds in a day.
pub const SECONDS_PER_DAY: i64 = 86_400;

/// The RFC 3339 text of the UTC instant that lies `secs` seconds and `nanos`
/// nanoseconds after the Unix epoch, or `None` when `chrono` cannot represent
/// that instant.
pub uninterp spec fn rfc3339_utc(secs: i64, nanos: u32) -> Option<Seq<char>>;

/// Builds the instant with `chrono::DateTime::from_timestamp` and renders it
/// with `DateTime::to_rfc3339`. The first returns `None` for seconds out of
/// range or invalid nanoseconds; the second cannot fail. The outcome depends
/// on the two numbers alone and is recorded under the name `rfc3339_utc`.
#[verifier::external_body]
fn format_rfc3339(secs: i64, nanos: u32) -> (text: Option<String>)
    ensures
        text_view(text) == rfc3339_utc(secs, nanos),
{
    match chrono::DateTime::from_timestamp(secs, nanos) {
        Some(instant) => Some(instant.to_rfc3339()),
        None => None,
    }
}

/// The instant `days` days after `now_secs`, in seconds since the epoch, or
/// `None` when it does not fit in 64 bits.
pub open spec fn instant_after_days(now_secs: i64, days: i64) -> Option<i64> {
    let instant = now_secs + days * SECONDS_PER_DAY;
    if i64::MIN <= instant <= i64::MAX && i64::MIN <= days * SECONDS_PER_DAY <= i64::MAX {
        Some(instant as i64)
    } else {
        None
    }
}

/// Computes the instant `days` days after `now_secs`.
pub fn add_days(now_secs: i64, days: i64) -> (instant: Option<i64>)
    ensures
        instant == instant_after_days(now_secs, days),
{
    match days.checked_mul(SECONDS_PER_DAY) {
        Some(span) => now_secs.checked_add(span),
        None => None,
    }
}

/// Renders an instant, given as seconds and nanoseconds since the epoch, as
/// RFC 3339 text in UTC.
pub fn timestamp_text(secs: i64, nanos: u32) -> (text: Option<String>)
    ensures
        text_view(text) == rfc3339_utc(secs, nanos),
{
    format_rfc3339(secs, nanos)
}

/// The text of the instant at which a notification sent now expires.
pub open spec fn expiry_text_view(now_secs: i64, now_nanos: u32, days: i64) -> Option<Seq<char>> {
    match instant_after_days(now_secs, days) {
        Some(instant) => rfc3339_utc(instant, now_nanos),
        None => None,
    }
}

/// Renders the instant `days` days after now as RFC 3339 text in UTC. There
/// is none when the instant is out of range.
pub fn expiry_timestamp(now_secs: i64, now_nanos: u32, days: i64) -> (text: Option<String>)
    ensures
        text_view(text) == expiry_text_view(now_secs, now_nanos, days),
{
    match add_days(now_secs, days) {
        Some(instant) => format_rfc3339(instant, now_nanos),
        None => None,
    }
}

} // verus!
