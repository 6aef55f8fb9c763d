//! The wall clock.

use vstd::prelude::*;

verus! {

/// The present instant in UTC, written as RFC 3339.
///
/// Calls `chrono::Utc::now` and formats the result with
/// `chrono::DateTime::to_rfc3339`. No claim is made about the text: it
/// depends on the system clock and differs from call to call. `Utc::now`
/// panics if the system clock stands before 1970 or beyond the range that
/// chrono can represent.
#[verifier::external_body]
pub(crate) fn current_timestamp() -> (now: String) {
    chrono::Utc::now().to_rfc3339()
}

} // verus!
