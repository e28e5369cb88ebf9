//! The server's clock.

use vstd::prelude::*;

verus! {

/// A date and time without an offset, as `chrono` holds it. Nothing is known
/// of a value but that it is one.
#[verifier::external_type_specification]
#[verifier::external_body]
pub struct ExNaiveDateTime(chrono::NaiveDateTime);

/// The current date and time in UTC, from `chrono::Utc::now` and
/// `DateTime::naive_utc`. Nothing is claimed of the value: it is whatever the
/// system clock reads, and two calls may differ. `Utc::now` panics if that
/// clock reads a time before 1970.
#[verifier::external_body]
pub(crate) fn utc_now() -> (now: chrono::NaiveDateTime) {
    chrono::Utc::now().naive_utc()
}

} // verus!
