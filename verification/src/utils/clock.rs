//! The current time.

use vstd::prelude::*;

verus! {

/// The current instant, in seconds since the Unix epoch.
///
/// Calls `chrono::Utc::now` and takes the `timestamp` of what it returns.
/// Nothing is claimed of the result: it is whatever the system clock says.
/// `Utc::now` does not return where the system clock stands before 1970.
#[verifier::external_body]
pub(crate) fn utc_now_seconds() -> (seconds: i64) {
    chrono::Utc::now().timestamp()
}

} // verus!
