//! Epoch seconds as calendar time.

use vstd::prelude::*;

verus! {

/// The RFC 3339 text, in UTC, of the instant `secs` seconds after the start of 1970, or
/// `None` where the calendar in use has no date for it.
pub uninterp spec fn rfc3339_utc(secs: i64) -> Option<Seq<char>>;

/// Writes an instant given in epoch seconds as RFC 3339 text in UTC.
///
/// Trusted: the body asks chrono's `DateTime::from_timestamp` for the instant, with no
/// fraction of a second, and, where there is one, has `DateTime::to_rfc3339` write it.
/// The contract claims only that the outcome is a function of `secs`, which it calls
/// `rfc3339_utc`; it says nothing of which seconds have a date.
#[verifier::external_body]
pub(crate) fn utc_timestamp(secs: i64) -> (text: Option<String>)
    ensures
        text matches Some(t) ==> rfc3339_utc(secs) == Some(t@),
        text is None ==> rfc3339_utc(secs) is None,
{
    match chrono::DateTime::from_timestamp(secs, 0) {
        Some(instant) => Some(instant.to_rfc3339()),
        None => None,
    }
}

} // verus!
