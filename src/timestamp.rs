use vstd::prelude::*;
use chrono::{DateTime, Utc};

verus! {

/// Whether a second count from the Unix epoch is a time that the calendar of
/// the UTC date-time type can represent.
pub uninterp spec fn utc_timestamp_valid(secs: int) -> bool;

/// The display form of the UTC date-time at a second count from the Unix
/// epoch (`2024-01-31 12:00:00 UTC`).
pub uninterp spec fn utc_display(secs: int) -> Seq<char>;

/// Relies on chrono's DateTime::<Utc>::from_timestamp: `None` exactly for
/// second counts outside the representable dates.
#[verifier::external_body]
pub(crate) fn is_valid_utc_timestamp(secs: i64) -> (r: bool)
    ensures
        r == utc_timestamp_valid(secs as int),
{
    DateTime::<Utc>::from_timestamp(secs, 0).is_some()
}

/// Relies on chrono's DateTime::<Utc>::from_timestamp and its Display: the
/// date-time written out, for representable second counts only.
#[verifier::external_body]
pub(crate) fn utc_display_of(secs: i64) -> (r: Option<String>)
    ensures
        r is Some <==> utc_timestamp_valid(secs as int),
        r matches Some(s) ==> s@ == utc_display(secs as int),
{
    DateTime::<Utc>::from_timestamp(secs, 0).map(|dt| dt.to_string())
}

} // verus!
