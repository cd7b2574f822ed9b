//! The wall clock.

use vstd::prelude::*;

verus! {

/// The current time in whole seconds since the Unix epoch, from
/// `chrono::Utc::now` and `DateTime::timestamp`. Trusted; it depends on the
/// clock, so nothing is claimed of the number. The call does not return where
/// the system clock stands before the epoch.
#[verifier::external_body]
pub(crate) fn unix_now() -> (now: i64) {
    chrono::Utc::now().timestamp()
}

} // verus!
