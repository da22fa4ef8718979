//! Timestamps and the wall clock.
//!
//! A timestamp is carried through the ledger as an opaque value: nothing in the
//! library looks inside one, it is only stored and handed back.

use vstd::prelude::*;

verus! {

/// The timestamp of the `chrono` crate, `chrono::NaiveDateTime`, as an opaque
/// value: nothing is known of what it holds.
#[verifier::external_type_specification]
#[verifier::external_body]
pub struct ExNaiveDateTime(chrono::NaiveDateTime);

/// The current UTC time, read from the system clock with `chrono::Utc::now`
/// and stripped of its zone with `DateTime::naive_utc`.
///
/// Nothing is claimed of the value: two calls may return different times and
/// the clock may be set back between them. The outside function panics if the
/// system clock reads a time before the UNIX epoch.
#[verifier::external_body]
pub(crate) fn current_time() -> chrono::NaiveDateTime {
    chrono::Utc::now().naive_utc()
}

} // verus!
