use chrono::{NaiveDateTime, Utc};
use vstd::prelude::*;

verus! {

/// `chrono::NaiveDateTime`, a calendar date and time of day without a time zone. The library
/// only carries such values; it never looks inside one.
#[verifier::external_type_specification]
#[verifier::external_body]
pub struct ExNaiveDateTime(NaiveDateTime);

/// The current time in UTC, read with `chrono::Utc::now` and stripped of its (always zero)
/// offset with `DateTime::naive_utc`. Nothing is claimed of the value: two calls may give
/// different times. `Utc::now` panics only if the system clock stands before 1970.
#[verifier::external_body]
pub(crate) fn now() -> (time: NaiveDateTime) {
    Utc::now().naive_utc()
}

} // verus!
