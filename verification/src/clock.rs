//! The wall clock.

use vstd::prelude::*;

verus! {

/// Reads `chrono::Utc::now()` and gives it as `timestamp_millis()`:
/// milliseconds since the Unix epoch. Trusted, and nothing is claimed of the
/// value. The call does not return where the system clock stands before the
/// epoch.
#[verifier::external_body]
pub(crate) fn now_millis() -> i64 {
    chrono::Utc::now().timestamp_millis()
}

} // verus!
